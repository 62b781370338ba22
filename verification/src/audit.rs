//! The audit over a sequence of resolved entries, and the laws that hold of
//! it: identical trees are silent, each divergence yields exactly its one
//! record, the outcome is a pure function of the resolved entries, and the
//! multiset of records does not depend on the order in which entries were
//! walked or dispatched.

use vstd::prelude::*;

use crate::classify::{
    spec_classify, spec_entry_record, entry_record, ContentModel, ContentOutcome,
    DiagnosticRecord, EntryKind, PairDecision, RecordModel, SideInfo, SideModel,
};

verus! {

/// Everything resolved for one relative path: the two probe paths, what each
/// side's probe found, and, for two regular files, the content outcome.
pub struct ResolvedEntry {
    pub src_path: Vec<u8>,
    pub tgt_path: Vec<u8>,
    pub src: SideInfo,
    pub tgt: SideInfo,
    pub content: Option<ContentOutcome>,
}

/// Mathematical model of `ResolvedEntry`.
pub struct EntryModel {
    pub src_path: Seq<u8>,
    pub tgt_path: Seq<u8>,
    pub src: SideModel,
    pub tgt: SideModel,
    pub content: Option<ContentModel>,
}

impl View for ResolvedEntry {
    type V = EntryModel;

    open spec fn view(&self) -> EntryModel {
        EntryModel {
            src_path: self.src_path@,
            tgt_path: self.tgt_path@,
            src: self.src@,
            tgt: self.tgt@,
            content: match self.content {
                Some(c) => Some(c@),
                None => None,
            },
        }
    }
}

/// A resolved entry is well formed when a content outcome is present exactly
/// for a pair of regular files.
pub open spec fn entry_wf(e: EntryModel) -> bool {
    (e.content is Some) <==> spec_classify(e.src, e.tgt) == PairDecision::CompareContents
}

/// The records one entry contributes: one block, or none for a match.
pub open spec fn entry_records(e: EntryModel) -> Seq<RecordModel> {
    match spec_entry_record(e.src_path, e.tgt_path, e.src, e.tgt, e.content) {
        Some(r) => seq![r],
        None => Seq::empty(),
    }
}

/// The records of a whole audit, in entry order.
pub open spec fn spec_audit(s: Seq<EntryModel>) -> Seq<RecordModel>
    decreases s.len(),
{
    if s.len() == 0 {
        Seq::empty()
    } else {
        spec_audit(s.drop_last()) + entry_records(s.last())
    }
}

/// Model view of a vector of resolved entries.
pub open spec fn entries_view(v: Seq<ResolvedEntry>) -> Seq<EntryModel> {
    v.map_values(|e: ResolvedEntry| e@)
}

/// Model view of a vector of records.
pub open spec fn records_view(v: Seq<DiagnosticRecord>) -> Seq<RecordModel> {
    v.map_values(|r: DiagnosticRecord| r@)
}

/// Audits a sequence of resolved entries in order, collecting the diagnostic
/// records of every diverging pair and nothing for the matches.
pub fn audit_entries(entries: &Vec<ResolvedEntry>) -> (out: Vec<DiagnosticRecord>)
    requires
        forall|i: int| 0 <= i < entries@.len() ==> entry_wf(#[trigger] entries@[i]@),
    ensures
        records_view(out@) == spec_audit(entries_view(entries@)),
{
    let ghost models = entries_view(entries@);
    let mut out: Vec<DiagnosticRecord> = Vec::new();
    let mut i: usize = 0;
    while i < entries.len()
        invariant
            i <= entries@.len(),
            models == entries_view(entries@),
            forall|j: int| 0 <= j < entries@.len() ==> entry_wf(#[trigger] entries@[j]@),
            records_view(out@) == spec_audit(models.take(i as int)),
        decreases entries@.len() - i,
    {
        let e = &entries[i];
        let content = match &e.content {
            Some(c) => Some(c),
            None => None,
        };
        proof {
            assert(entry_wf(entries@[i as int]@));
        }
        let rec = entry_record(&e.src_path, &e.tgt_path, &e.src, &e.tgt, content);
        proof {
            assert(models.take(i as int + 1).drop_last() =~= models.take(i as int));
            assert(models.take(i as int + 1).last() == entries@[i as int]@);
        }
        match rec {
            Some(r) => {
                out.push(r);
                proof {
                    assert(records_view(out@) =~= spec_audit(models.take(i as int + 1)));
                }
            },
            None => {
                proof {
                    assert(records_view(out@) =~= spec_audit(models.take(i as int + 1)));
                }
            },
        }
        i += 1;
    }
    proof {
        assert(models.take(models.len() as int) =~= models);
    }
    out
}

/// An entry over which the two trees agree: both sides are present with the
/// same kind of directory, symlink or regular file, and for regular files the
/// two digests are equal.
pub open spec fn entry_identical(e: EntryModel) -> bool {
    match (e.src, e.tgt) {
        (SideModel::Present(EntryKind::Directory), SideModel::Present(EntryKind::Directory)) => e.content is None,
        (SideModel::Present(EntryKind::Symlink), SideModel::Present(EntryKind::Symlink)) => e.content is None,
        (
            SideModel::Present(EntryKind::Regular),
            SideModel::Present(EntryKind::Regular),
        ) => e.content matches Some(ContentModel::Digests(a, b)) && a == b,
        _ => false,
    }
}

/// Identical trees are silent: an audit over entries that all agree emits no
/// diagnostic record at all.
pub proof fn lemma_identical_trees_silent(s: Seq<EntryModel>)
    requires
        forall|i: int| 0 <= i < s.len() ==> entry_identical(#[trigger] s[i]),
    ensures
        spec_audit(s) == Seq::<RecordModel>::empty(),
    decreases s.len(),
{
    if s.len() > 0 {
        lemma_identical_trees_silent(s.drop_last());
        assert(entry_identical(s[s.len() - 1]));
        assert(spec_audit(s) =~= Seq::<RecordModel>::empty());
    }
}

/// Two regular files whose digests differ contribute exactly one record: a
/// content mismatch naming both digests.
pub proof fn lemma_content_mismatch_record(e: EntryModel, a: Seq<u8>, b: Seq<u8>)
    requires
        e.src == SideModel::Present(EntryKind::Regular),
        e.tgt == SideModel::Present(EntryKind::Regular),
        e.content == Some(ContentModel::Digests(a, b)),
        a != b,
    ensures
        entry_records(e) == seq![
            RecordModel::ContentMismatch {
                src_path: e.src_path,
                tgt_path: e.tgt_path,
                src_digest: a,
                tgt_digest: b,
            },
        ],
{
}

/// An entry present only under the source root contributes exactly one
/// missing-in-target record; the symmetric statement holds for the target.
pub proof fn lemma_missing_records(e: EntryModel, k: EntryKind, reason: Seq<u8>)
    requires
        e.content is None,
    ensures
        e.src == SideModel::Present(k) && e.tgt == SideModel::Absent(reason) ==> entry_records(e)
            == seq![
            RecordModel::MissingInTarget {
                src_path: e.src_path,
                tgt_path: e.tgt_path,
                reason: reason,
            },
        ],
        e.src == SideModel::Absent(reason) && e.tgt == SideModel::Present(k) ==> entry_records(e)
            == seq![
            RecordModel::MissingInSource {
                src_path: e.src_path,
                tgt_path: e.tgt_path,
                reason: reason,
            },
        ],
{
}

/// A pair of present entries of diverging kinds (such as a directory on one
/// side and a regular file on the other) contributes exactly one type
/// mismatch record.
pub proof fn lemma_type_mismatch_record(e: EntryModel, s: EntryKind, t: EntryKind)
    requires
        e.src == SideModel::Present(s),
        e.tgt == SideModel::Present(t),
        spec_classify(e.src, e.tgt) == PairDecision::TypeMismatch,
        e.content is None,
    ensures
        entry_records(e) == seq![
            RecordModel::TypeMismatch { src_path: e.src_path, tgt_path: e.tgt_path },
        ],
{
}

/// Each entry contributes exactly its own records: extending a walk by one
/// entry appends that entry's record, or nothing for a match, and changes no
/// earlier finding.
pub proof fn lemma_audit_extend(s: Seq<EntryModel>, e: EntryModel)
    ensures
        spec_audit(s.push(e)) == spec_audit(s) + entry_records(e),
{
    assert(s.push(e).drop_last() =~= s);
}

/// Every content-mismatch record an audit emits names two unequal digests.
pub proof fn lemma_mismatch_records_unequal(s: Seq<EntryModel>, i: int)
    requires
        0 <= i < spec_audit(s).len(),
    ensures
        spec_audit(s)[i] matches RecordModel::ContentMismatch { src_digest, tgt_digest, .. }
            ==> src_digest != tgt_digest,
    decreases s.len(),
{
    if s.len() > 0 {
        let u = spec_audit(s.drop_last());
        if i < u.len() {
            lemma_mismatch_records_unequal(s.drop_last(), i);
            assert(spec_audit(s)[i] == u[i]);
        }
    }
}

/// Idempotence: the audit is a pure function of the resolved entries, so two
/// runs over unchanged trees produce identical record sequences.
pub proof fn lemma_audit_deterministic(a: Seq<EntryModel>, b: Seq<EntryModel>)
    requires
        a == b,
    ensures
        spec_audit(a) == spec_audit(b),
{
}

/// Concatenation of sequences adds their multisets.
proof fn lemma_to_multiset_concat<A>(u: Seq<A>, v: Seq<A>)
    ensures
        (u + v).to_multiset() =~= u.to_multiset().add(v.to_multiset()),
    decreases v.len(),
{
    broadcast use vstd::seq_lib::group_to_multiset_ensures;

    if v.len() == 0 {
        assert(u + v =~= u);
        assert forall|x: A| v.to_multiset().count(x) == 0 by {
            assert(!v.contains(x));
        }
    } else {
        lemma_to_multiset_concat(u, v.drop_last());
        assert(u + v =~= (u + v.drop_last()).push(v.last()));
        assert(v =~= v.drop_last().push(v.last()));
    }
}

/// Removing the entry at one position takes exactly its records out of the
/// audit's record multiset.
proof fn lemma_audit_remove_multiset(s: Seq<EntryModel>, i: int)
    requires
        0 <= i < s.len(),
    ensures
        spec_audit(s).to_multiset() =~= spec_audit(s.remove(i)).to_multiset().add(
            entry_records(s[i]).to_multiset(),
        ),
    decreases s.len(),
{
    broadcast use vstd::seq_lib::group_to_multiset_ensures;

    if i == s.len() - 1 {
        assert(s.remove(i) =~= s.drop_last());
        lemma_to_multiset_concat(spec_audit(s.drop_last()), entry_records(s.last()));
    } else {
        let s0 = s.drop_last();
        assert(s.remove(i).drop_last() =~= s0.remove(i));
        assert(s.remove(i).last() == s.last());
        lemma_audit_remove_multiset(s0, i);
        lemma_to_multiset_concat(spec_audit(s0), entry_records(s.last()));
        lemma_to_multiset_concat(spec_audit(s0.remove(i)), entry_records(s.last()));
        assert(spec_audit(s.remove(i)) == spec_audit(s0.remove(i)) + entry_records(s.last()));
    }
}

/// Order independence: audits over the same entries, walked or dispatched in
/// any order (as a pool of any size may do), produce the same multiset of
/// diagnostic records.
pub proof fn lemma_audit_order_independent(a: Seq<EntryModel>, b: Seq<EntryModel>)
    requires
        a.to_multiset() == b.to_multiset(),
    ensures
        spec_audit(a).to_multiset() == spec_audit(b).to_multiset(),
    decreases a.len(),
{
    broadcast use vstd::seq_lib::group_to_multiset_ensures;

    if a.len() == 0 {
        assert(b.to_multiset().len() == 0);
        assert(b.len() == 0);
    } else {
        let x = a.last();
        let a0 = a.drop_last();
        assert(a =~= a0.push(x));
        assert(a.to_multiset() =~= a0.to_multiset().insert(x));
        assert(b.to_multiset().count(x) > 0);
        assert(b.contains(x));
        let i = choose|i: int| 0 <= i < b.len() && b[i] == x;
        let b0 = b.remove(i);
        assert(b0.to_multiset() =~= b.to_multiset().remove(x));
        assert(a0.to_multiset() =~= a.to_multiset().remove(x));
        lemma_audit_order_independent(a0, b0);
        lemma_audit_remove_multiset(b, i);
        lemma_to_multiset_concat(spec_audit(a0), entry_records(x));
        assert(spec_audit(a).to_multiset() =~= spec_audit(b).to_multiset());
    }
}

} // verus!
