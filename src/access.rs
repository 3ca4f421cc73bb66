//! The access mode of a register that does not state one.
use vstd::prelude::*;
use crate::error::{GenError, GenErrorV, err_view};
use crate::model::{Access, Field, Register};

verus! {

/// Every field is read-only or states no access mode.
pub open spec fn all_read_only(fs: Seq<Field>) -> bool {
    forall|i: int|
        0 <= i < fs.len() ==> (#[trigger] fs[i]).access is None || fs[i].access == Some(
            Access::ReadOnly,
        )
}

/// Every field is write-only.
pub open spec fn all_write_only(fs: Seq<Field>) -> bool {
    forall|i: int| 0 <= i < fs.len() ==> (#[trigger] fs[i]).access == Some(Access::WriteOnly)
}

/// Some field is read-write.
pub open spec fn any_read_write(fs: Seq<Field>) -> bool {
    exists|i: int| 0 <= i < fs.len() && (#[trigger] fs[i]).access == Some(Access::ReadWrite)
}

/// The access modes of the fields, in order.
pub open spec fn access_modes(fs: Seq<Field>) -> Seq<Option<Access>> {
    fs.map_values(|f: Field| f.access)
}

/// The access mode of register `r`: its own where it states one, else the one
/// that its fields agree on.
pub open spec fn resolved_access(r: Register) -> Result<Access, GenErrorV> {
    match r.access {
        Some(a) => Ok(a),
        None => match r.fields {
            None => Err(GenErrorV::MissingFields { register: r.name@ }),
            Some(fs) => if all_read_only(fs@) {
                Ok(Access::ReadOnly)
            } else if all_write_only(fs@) {
                Ok(Access::WriteOnly)
            } else if any_read_write(fs@) {
                Ok(Access::ReadWrite)
            } else {
                Err(
                    GenErrorV::AmbiguousAccess {
                        register: r.name@,
                        modes: access_modes(fs@),
                    },
                )
            },
        },
    }
}

/// Resolves the access mode of register `r`.
pub fn resolve_access(r: &Register) -> (res: Result<Access, GenError>)
    ensures
        err_view(res) == resolved_access(*r),
{
    if let Some(a) = r.access {
        return Ok(a);
    }
    let fs = match &r.fields {
        None => {
            return Err(GenError::MissingFields { register: r.name.clone() });
        },
        Some(fs) => fs,
    };
    let mut read_only = true;
    let mut write_only = true;
    let mut read_write = false;
    let mut modes: Vec<Option<Access>> = Vec::new();
    let mut i: usize = 0;
    while i < fs.len()
        invariant
            0 <= i <= fs@.len(),
            read_only == all_read_only(fs@.take(i as int)),
            write_only == all_write_only(fs@.take(i as int)),
            read_write == any_read_write(fs@.take(i as int)),
            modes@ == access_modes(fs@.take(i as int)),
        decreases fs.len() - i,
    {
        let a = fs[i].access;
        let ghost prefix = fs@.take(i as int);
        let ghost next = fs@.take(i + 1);
        proof {
            assert(next =~= prefix.push(fs@[i as int]));
        }
        match a {
            Some(Access::ReadOnly) => {
                write_only = false;
            },
            None => {
                write_only = false;
            },
            Some(Access::WriteOnly) => {
                read_only = false;
            },
            Some(Access::ReadWrite) => {
                read_only = false;
                write_only = false;
                read_write = true;
            },
        }
        modes.push(a);
        proof {
            assert(next[i as int] == fs@[i as int]);
            if read_only {
                assert forall|j: int| 0 <= j < next.len() implies (#[trigger] next[j]).access is None
                    || next[j].access == Some(Access::ReadOnly) by {
                    if j < i {
                        assert(next[j] == prefix[j]);
                    }
                }
            } else if !all_read_only(prefix) {
                let j = choose|j: int|
                    0 <= j < prefix.len() && !((#[trigger] prefix[j]).access is None
                        || prefix[j].access == Some(Access::ReadOnly));
                assert(next[j] == prefix[j]);
            }
            if write_only {
                assert forall|j: int| 0 <= j < next.len() implies (#[trigger] next[j]).access
                    == Some(Access::WriteOnly) by {
                    if j < i {
                        assert(next[j] == prefix[j]);
                    }
                }
            } else if !all_write_only(prefix) {
                let j = choose|j: int|
                    0 <= j < prefix.len() && (#[trigger] prefix[j]).access != Some(
                        Access::WriteOnly,
                    );
                assert(next[j] == prefix[j]);
            }
            if any_read_write(prefix) {
                let j = choose|j: int|
                    0 <= j < prefix.len() && (#[trigger] prefix[j]).access == Some(
                        Access::ReadWrite,
                    );
                assert(next[j] == prefix[j]);
            }
            if any_read_write(next) && !any_read_write(prefix) {
                let j = choose|j: int|
                    0 <= j < next.len() && (#[trigger] next[j]).access == Some(Access::ReadWrite);
                if j < i {
                    assert(next[j] == prefix[j]);
                }
            }
            assert(access_modes(next) =~= access_modes(prefix).push(a));
        }
        i += 1;
    }
    proof {
        assert(fs@.take(fs@.len() as int) =~= fs@);
    }
    if read_only {
        Ok(Access::ReadOnly)
    } else if write_only {
        Ok(Access::WriteOnly)
    } else if read_write {
        Ok(Access::ReadWrite)
    } else {
        Err(GenError::AmbiguousAccess { register: r.name.clone(), modes })
    }
}

} // verus!

verus! {

/// Access resolution of a register without a mode of its own: read-only
/// fields make it read-only; write-only fields make it write-only; a
/// read-write field among fields that are not all of one mode makes it
/// read-write; read-only and write-only fields with no read-write one are an
/// error.
pub proof fn lemma_access_resolution(r: Register)
    requires
        r.access is None,
        r.fields is Some,
    ensures
        ({
            let fs = r.fields->Some_0@;
            &&& (forall|i: int| 0 <= i < fs.len() ==> (#[trigger] fs[i]).access == Some(
                Access::ReadOnly,
            )) ==> resolved_access(r) == Ok::<Access, GenErrorV>(Access::ReadOnly)
            &&& fs.len() > 0 && all_write_only(fs) ==> resolved_access(r) == Ok::<
                Access,
                GenErrorV,
            >(Access::WriteOnly)
            &&& any_read_write(fs) ==> resolved_access(r) == Ok::<Access, GenErrorV>(
                Access::ReadWrite,
            )
            &&& (exists|i: int| 0 <= i < fs.len() && (#[trigger] fs[i]).access == Some(
                Access::ReadOnly,
            )) && (exists|i: int| 0 <= i < fs.len() && (#[trigger] fs[i]).access == Some(
                Access::WriteOnly,
            )) && !any_read_write(fs) ==> resolved_access(r) == Err::<Access, GenErrorV>(
                GenErrorV::AmbiguousAccess { register: r.name@, modes: access_modes(fs) },
            )
        }),
{
    let fs = r.fields->Some_0@;
    if fs.len() > 0 && all_write_only(fs) {
        assert(fs[0].access == Some(Access::WriteOnly));
    }
    if any_read_write(fs) {
        let i = choose|i: int| 0 <= i < fs.len() && (#[trigger] fs[i]).access == Some(Access::ReadWrite);
        assert(fs[i].access == Some(Access::ReadWrite));
    }
    if (exists|i: int| 0 <= i < fs.len() && (#[trigger] fs[i]).access == Some(Access::ReadOnly))
        && (exists|i: int| 0 <= i < fs.len() && (#[trigger] fs[i]).access == Some(
        Access::WriteOnly,
    )) {
        let i = choose|i: int| 0 <= i < fs.len() && (#[trigger] fs[i]).access == Some(Access::ReadOnly);
        let k = choose|k: int| 0 <= k < fs.len() && (#[trigger] fs[k]).access == Some(Access::WriteOnly);
        assert(fs[i].access == Some(Access::ReadOnly));
        assert(fs[k].access == Some(Access::WriteOnly));
    }
}

} // verus!
