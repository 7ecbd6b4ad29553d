//! The directory sync engine: which walked entries are transferred and
//! where, and the decisions of a backup pass.
use crate::path::{
    is_payload, is_payload_path, offset_spec, remote_path, remote_spec, LocalPath,
};
use vstd::prelude::*;

verus! {

/// One file to transfer: its path relative to the local root, and the
/// remote path it maps to.
pub struct Transfer {
    pub relative: LocalPath,
    pub remote: String,
}

impl View for Transfer {
    type V = (Seq<Seq<char>>, Seq<char>);

    open spec fn view(&self) -> (Seq<Seq<char>>, Seq<char>) {
        (self.relative@, self.remote@)
    }
}

/// The views of a list of walked paths.
pub open spec fn path_views(v: Seq<LocalPath>) -> Seq<Seq<Seq<char>>> {
    v.map_values(|p: LocalPath| p@)
}

/// The views of a list of transfers.
pub open spec fn transfer_views(v: Seq<Transfer>) -> Seq<(Seq<Seq<char>>, Seq<char>)> {
    v.map_values(|t: Transfer| t@)
}

/// The transfers of a walk: for each walked entry, in walk order, the entry
/// made relative to a local root of `root_len` components, kept only when
/// it names a payload file, together with its remote path under
/// `remote_root`.
pub open spec fn plan_spec(
    root_len: int,
    entries: Seq<Seq<Seq<char>>>,
    remote_root: Seq<char>,
) -> Seq<(Seq<Seq<char>>, Seq<char>)>
    decreases entries.len(),
{
    if entries.len() == 0 {
        Seq::empty()
    } else {
        let earlier = plan_spec(root_len, entries.drop_last(), remote_root);
        let rel = offset_spec(entries.last(), root_len);
        if is_payload(rel) {
            earlier.push((rel, remote_spec(remote_root, rel)))
        } else {
            earlier
        }
    }
}

/// The transfers for the entries of a walk rooted at `root`, towards the
/// remote directory `remote_root`. Used both to install (local to remote)
/// and to back up (remote to local).
pub fn plan_transfers(root: &LocalPath, entries: &Vec<LocalPath>, remote_root: &str) -> (r: Vec<
    Transfer,
>)
    ensures
        transfer_views(r@) == plan_spec(root@.len() as int, path_views(entries@), remote_root@),
{
    let n = root.len();
    let mut out: Vec<Transfer> = Vec::new();
    let mut i: usize = 0;
    while i < entries.len()
        invariant
            n == root@.len(),
            i <= entries@.len(),
            transfer_views(out@) == plan_spec(
                n as int,
                path_views(entries@.subrange(0, i as int)),
                remote_root@,
            ),
        decreases entries@.len() - i,
    {
        let ghost prev = path_views(entries@.subrange(0, i as int));
        let ghost next = path_views(entries@.subrange(0, i + 1));
        assert(next.drop_last() =~= prev);
        assert(next.last() == entries@[i as int]@);
        let rel = entries[i].offset(n);
        if is_payload_path(&rel) {
            let remote = remote_path(remote_root, &rel);
            let t = Transfer { relative: rel, remote };
            let ghost before = out@;
            out.push(t);
            assert(transfer_views(out@) =~= transfer_views(before).push(t@));
        }
        i = i + 1;
    }
    assert(entries@.subrange(0, entries@.len() as int) =~= entries@);
    out
}

/// Nothing whose final component lacks an extension is transferred: every
/// planned transfer has a non-empty relative path whose last component
/// carries an extension, and an entry that is no payload adds nothing to
/// the plan.
pub proof fn lemma_extensionless_never_transferred(
    root_len: int,
    entries: Seq<Seq<Seq<char>>>,
    remote_root: Seq<char>,
)
    ensures
        forall|k: int|
            0 <= k < plan_spec(root_len, entries, remote_root).len() ==> is_payload(
                #[trigger] plan_spec(root_len, entries, remote_root)[k].0,
            ),
        forall|p: Seq<Seq<char>>|
            !is_payload(offset_spec(p, root_len)) ==> #[trigger] plan_spec(
                root_len,
                entries.push(p),
                remote_root,
            ) == plan_spec(root_len, entries, remote_root),
    decreases entries.len(),
{
    if entries.len() > 0 {
        lemma_extensionless_never_transferred(root_len, entries.drop_last(), remote_root);
        let earlier = plan_spec(root_len, entries.drop_last(), remote_root);
        let plan = plan_spec(root_len, entries, remote_root);
        assert forall|k: int| 0 <= k < plan.len() implies is_payload(#[trigger] plan[k].0) by {
            if k < earlier.len() {
                assert(plan[k] == earlier[k]);
            }
        }
    }
    assert forall|p: Seq<Seq<char>>| !is_payload(offset_spec(p, root_len)) implies #[trigger] plan_spec(
        root_len,
        entries.push(p),
        remote_root,
    ) == plan_spec(root_len, entries, remote_root) by {
        assert(entries.push(p).drop_last() =~= entries);
    }
}

} // verus!
