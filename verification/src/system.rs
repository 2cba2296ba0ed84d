//! The execution boundary's pure pieces.
//!
//! Running the external binary is left to the surrounding application; what
//! stands here is what can be computed without it: the directory a shell
//! should change into for a project, derived from the project's first
//! compose file.

use vstd::prelude::*;
use vstd::string::StrSliceExecFns;

use crate::config::ComposeItem;
use crate::DctlError;

verus! {

/// The executor of assembled invocations. Running programs is the
/// application's part; the handle only carries the pure helpers.
#[derive(Debug, PartialEq, Eq, Structural)]
pub struct System {}

/// The parent directory of a path: everything before the last `/`, and
/// empty for a path without one.
pub open spec fn parent_path(path: Seq<char>) -> Seq<char>
    decreases path.len(),
{
    if path.len() == 0 {
        Seq::empty()
    } else if path.last() == '/' {
        path.drop_last()
    } else {
        parent_path(path.drop_last())
    }
}

/// The directory holding the project's first compose file, as
/// [`parent_path`] defines it.
pub fn extract_path_from_cd_command(compose_item: &ComposeItem) -> (r: Result<String, DctlError>)
    requires
        compose_item.compose_files@.len() > 0,
    ensures
        r is Ok,
        r->Ok_0@ == parent_path(compose_item@.compose_files[0]),
{
    let first = &compose_item.compose_files[0];
    let st = first.as_str();
    let n = st.unicode_len();
    let mut i: usize = n;
    proof {
        assert(st@.take(n as int) =~= st@);
    }
    while i > 0
        invariant
            i <= n,
            n == st@.len(),
            compose_item@.compose_files.len() > 0,
            st@ == compose_item@.compose_files[0],
            parent_path(st@) == parent_path(st@.take(i as int)),
        decreases i,
    {
        proof {
            assert(st@.take(i as int).drop_last() =~= st@.take(i - 1));
            assert(st@.take(i as int).last() == st@[i - 1]);
        }
        if st.get_char(i - 1) == '/' {
            let parent = st.substring_char(0, i - 1);
            proof {
                assert(st@.subrange(0, i - 1) =~= st@.take(i - 1));
            }
            return Ok(parent.to_owned());
        }
        i = i - 1;
    }
    proof {
        assert(st@.take(0) =~= Seq::<char>::empty());
    }
    let r = String::new();
    proof {
        assert(r@ =~= Seq::<char>::empty());
    }
    Ok(r)
}

impl System {
    /// The executor handle.
    pub fn init() -> (r: Self)
        ensures
            r == (System {  }),
    {
        System {  }
    }

    /// The directory a shell should change into for the given project: the
    /// parent of its first compose file.
    pub fn cd(&self, item: &ComposeItem) -> (r: Result<String, DctlError>)
        requires
            item.compose_files@.len() > 0,
        ensures
            r is Ok,
            r->Ok_0@ == parent_path(item@.compose_files[0]),
    {
        extract_path_from_cd_command(item)
    }
}

} // verus!
