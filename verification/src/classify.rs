//! Entry classification: given what was resolved for one relative path under
//! the source root and under the target root, decide the audit outcome and
//! build the diagnostic record, if any. Silence means a confirmed match.

use vstd::prelude::*;

verus! {

/// Basic type of a present filesystem entry, read without following symlinks.
#[derive(Clone, Copy, PartialEq, Eq, Structural, Debug)]
pub enum EntryKind {
    Regular,
    Directory,
    Symlink,
    Other,
}

/// One side of a resolved pair: the entry is present with a kind, or absent
/// with the text of the error that the probe returned.
pub enum SideInfo {
    Present(EntryKind),
    Absent(Vec<u8>),
}

/// Mathematical model of `SideInfo`.
pub enum SideModel {
    Present(EntryKind),
    Absent(Seq<u8>),
}

impl View for SideInfo {
    type V = SideModel;

    open spec fn view(&self) -> SideModel {
        match self {
            SideInfo::Present(k) => SideModel::Present(*k),
            SideInfo::Absent(reason) => SideModel::Absent(reason@),
        }
    }
}

/// Closed set of audit outcomes for one resolved pair.
#[derive(Clone, Copy, PartialEq, Eq, Structural, Debug)]
pub enum EntryCategory {
    BothDirectories,
    BothSymlinks,
    BothRegularContentMatch,
    BothRegularContentMismatch,
    TypeMismatch,
    MissingInTarget,
    MissingInSource,
    MissingInBoth,
}

/// First stage of classification, from entry kinds alone: either a final
/// category, or the instruction to digest both sides' contents.
#[derive(Clone, Copy, PartialEq, Eq, Structural, Debug)]
pub enum PairDecision {
    MissingInBoth,
    MissingInSource,
    MissingInTarget,
    BothDirectories,
    BothSymlinks,
    CompareContents,
    TypeMismatch,
}

/// The decision table over a resolved pair, first matching rule wins:
/// absence decides first, then equal directory or symlink kinds match with no
/// further check, two regular files call for a content comparison, and any
/// other combination of present kinds is a type mismatch.
pub open spec fn spec_classify(src: SideModel, tgt: SideModel) -> PairDecision {
    match (src, tgt) {
        (SideModel::Absent(_), SideModel::Absent(_)) => PairDecision::MissingInBoth,
        (SideModel::Absent(_), SideModel::Present(_)) => PairDecision::MissingInSource,
        (SideModel::Present(_), SideModel::Absent(_)) => PairDecision::MissingInTarget,
        (SideModel::Present(s), SideModel::Present(t)) => {
            if s == EntryKind::Directory && t == EntryKind::Directory {
                PairDecision::BothDirectories
            } else if s == EntryKind::Symlink && t == EntryKind::Symlink {
                PairDecision::BothSymlinks
            } else if s == EntryKind::Regular && t == EntryKind::Regular {
                PairDecision::CompareContents
            } else {
                PairDecision::TypeMismatch
            }
        },
    }
}

/// Classifies a resolved pair by entry kinds alone.
pub fn classify_pair(src: &SideInfo, tgt: &SideInfo) -> (d: PairDecision)
    ensures
        d == spec_classify(src@, tgt@),
{
    match (src, tgt) {
        (SideInfo::Absent(_), SideInfo::Absent(_)) => PairDecision::MissingInBoth,
        (SideInfo::Absent(_), SideInfo::Present(_)) => PairDecision::MissingInSource,
        (SideInfo::Present(_), SideInfo::Absent(_)) => PairDecision::MissingInTarget,
        (SideInfo::Present(s), SideInfo::Present(t)) => {
            if *s == EntryKind::Directory && *t == EntryKind::Directory {
                PairDecision::BothDirectories
            } else if *s == EntryKind::Symlink && *t == EntryKind::Symlink {
                PairDecision::BothSymlinks
            } else if *s == EntryKind::Regular && *t == EntryKind::Regular {
                PairDecision::CompareContents
            } else {
                PairDecision::TypeMismatch
            }
        },
    }
}

/// Which side a digest-stage read failure happened on.
#[derive(Clone, Copy, PartialEq, Eq, Structural, Debug)]
pub enum Side {
    Source,
    Target,
}

/// Outcome of the content comparison of two regular files: both digests, or
/// the text of the read error that stopped the first side that failed.
pub enum ContentOutcome {
    Digests(Vec<u8>, Vec<u8>),
    SrcReadError(Vec<u8>),
    TgtReadError(Vec<u8>),
}

/// Mathematical model of `ContentOutcome`.
pub enum ContentModel {
    Digests(Seq<u8>, Seq<u8>),
    SrcReadError(Seq<u8>),
    TgtReadError(Seq<u8>),
}

impl View for ContentOutcome {
    type V = ContentModel;

    open spec fn view(&self) -> ContentModel {
        match self {
            ContentOutcome::Digests(s, t) => ContentModel::Digests(s@, t@),
            ContentOutcome::SrcReadError(e) => ContentModel::SrcReadError(e@),
            ContentOutcome::TgtReadError(e) => ContentModel::TgtReadError(e@),
        }
    }
}

/// One reported finding of divergence between the two trees. The two paths
/// are the absolute probe paths of the pair; reasons carry error text.
pub enum DiagnosticRecord {
    MissingInTarget { src_path: Vec<u8>, tgt_path: Vec<u8>, reason: Vec<u8> },
    MissingInSource { src_path: Vec<u8>, tgt_path: Vec<u8>, reason: Vec<u8> },
    MissingInBoth { src_path: Vec<u8>, tgt_path: Vec<u8>, src_reason: Vec<u8>, tgt_reason: Vec<u8> },
    TypeMismatch { src_path: Vec<u8>, tgt_path: Vec<u8> },
    ContentMismatch {
        src_path: Vec<u8>,
        tgt_path: Vec<u8>,
        src_digest: Vec<u8>,
        tgt_digest: Vec<u8>,
    },
    HashReadError { src_path: Vec<u8>, tgt_path: Vec<u8>, side: Side, reason: Vec<u8> },
}

/// Mathematical model of `DiagnosticRecord`.
pub enum RecordModel {
    MissingInTarget { src_path: Seq<u8>, tgt_path: Seq<u8>, reason: Seq<u8> },
    MissingInSource { src_path: Seq<u8>, tgt_path: Seq<u8>, reason: Seq<u8> },
    MissingInBoth { src_path: Seq<u8>, tgt_path: Seq<u8>, src_reason: Seq<u8>, tgt_reason: Seq<u8> },
    TypeMismatch { src_path: Seq<u8>, tgt_path: Seq<u8> },
    ContentMismatch {
        src_path: Seq<u8>,
        tgt_path: Seq<u8>,
        src_digest: Seq<u8>,
        tgt_digest: Seq<u8>,
    },
    HashReadError { src_path: Seq<u8>, tgt_path: Seq<u8>, side: Side, reason: Seq<u8> },
}

impl View for DiagnosticRecord {
    type V = RecordModel;

    open spec fn view(&self) -> RecordModel {
        match self {
            DiagnosticRecord::MissingInTarget { src_path, tgt_path, reason } => {
                RecordModel::MissingInTarget {
                    src_path: src_path@,
                    tgt_path: tgt_path@,
                    reason: reason@,
                }
            },
            DiagnosticRecord::MissingInSource { src_path, tgt_path, reason } => {
                RecordModel::MissingInSource {
                    src_path: src_path@,
                    tgt_path: tgt_path@,
                    reason: reason@,
                }
            },
            DiagnosticRecord::MissingInBoth { src_path, tgt_path, src_reason, tgt_reason } => {
                RecordModel::MissingInBoth {
                    src_path: src_path@,
                    tgt_path: tgt_path@,
                    src_reason: src_reason@,
                    tgt_reason: tgt_reason@,
                }
            },
            DiagnosticRecord::TypeMismatch { src_path, tgt_path } => {
                RecordModel::TypeMismatch { src_path: src_path@, tgt_path: tgt_path@ }
            },
            DiagnosticRecord::ContentMismatch { src_path, tgt_path, src_digest, tgt_digest } => {
                RecordModel::ContentMismatch {
                    src_path: src_path@,
                    tgt_path: tgt_path@,
                    src_digest: src_digest@,
                    tgt_digest: tgt_digest@,
                }
            },
            DiagnosticRecord::HashReadError { src_path, tgt_path, side, reason } => {
                RecordModel::HashReadError {
                    src_path: src_path@,
                    tgt_path: tgt_path@,
                    side: *side,
                    reason: reason@,
                }
            },
        }
    }
}

/// Model view of an optional borrowed content outcome.
pub open spec fn content_opt_view(c: Option<&ContentOutcome>) -> Option<ContentModel> {
    match c {
        Some(x) => Some(x@),
        None => None,
    }
}

/// The record, if any, for one fully resolved entry. A pair is well formed
/// when a content outcome is supplied exactly for two regular files; on other
/// inputs the content outcome is ignored or the result is `None`.
pub open spec fn spec_entry_record(
    src_path: Seq<u8>,
    tgt_path: Seq<u8>,
    src: SideModel,
    tgt: SideModel,
    content: Option<ContentModel>,
) -> Option<RecordModel> {
    match spec_classify(src, tgt) {
        PairDecision::MissingInBoth => Some(
            RecordModel::MissingInBoth {
                src_path,
                tgt_path,
                src_reason: src->Absent_0,
                tgt_reason: tgt->Absent_0,
            },
        ),
        PairDecision::MissingInSource => Some(
            RecordModel::MissingInSource { src_path, tgt_path, reason: src->Absent_0 },
        ),
        PairDecision::MissingInTarget => Some(
            RecordModel::MissingInTarget { src_path, tgt_path, reason: tgt->Absent_0 },
        ),
        PairDecision::BothDirectories => None,
        PairDecision::BothSymlinks => None,
        PairDecision::TypeMismatch => Some(RecordModel::TypeMismatch { src_path, tgt_path }),
        PairDecision::CompareContents => match content {
            Some(ContentModel::Digests(a, b)) => {
                if a == b {
                    None
                } else {
                    Some(
                        RecordModel::ContentMismatch {
                            src_path,
                            tgt_path,
                            src_digest: a,
                            tgt_digest: b,
                        },
                    )
                }
            },
            Some(ContentModel::SrcReadError(e)) => Some(
                RecordModel::HashReadError { src_path, tgt_path, side: Side::Source, reason: e },
            ),
            Some(ContentModel::TgtReadError(e)) => Some(
                RecordModel::HashReadError { src_path, tgt_path, side: Side::Target, reason: e },
            ),
            None => None,
        },
    }
}

/// Classifies one fully resolved entry and builds its diagnostic record.
/// Returns `None` exactly for the silent outcomes: both directories, both
/// symlinks, or two regular files whose digests agree.
pub fn entry_record(
    src_path: &Vec<u8>,
    tgt_path: &Vec<u8>,
    src: &SideInfo,
    tgt: &SideInfo,
    content: Option<&ContentOutcome>,
) -> (r: Option<DiagnosticRecord>)
    requires
        (content is Some) <==> spec_classify(src@, tgt@) == PairDecision::CompareContents,
    ensures
        record_opt_view(r) == spec_entry_record(
            src_path@,
            tgt_path@,
            src@,
            tgt@,
            content_opt_view(content),
        ),
{
    let sp = crate::bytes::copy_bytes(src_path);
    let tp = crate::bytes::copy_bytes(tgt_path);
    match (src, tgt) {
        (SideInfo::Absent(se), SideInfo::Absent(te)) => Some(
            DiagnosticRecord::MissingInBoth {
                src_path: sp,
                tgt_path: tp,
                src_reason: crate::bytes::copy_bytes(se),
                tgt_reason: crate::bytes::copy_bytes(te),
            },
        ),
        (SideInfo::Absent(se), SideInfo::Present(_)) => Some(
            DiagnosticRecord::MissingInSource {
                src_path: sp,
                tgt_path: tp,
                reason: crate::bytes::copy_bytes(se),
            },
        ),
        (SideInfo::Present(_), SideInfo::Absent(te)) => Some(
            DiagnosticRecord::MissingInTarget {
                src_path: sp,
                tgt_path: tp,
                reason: crate::bytes::copy_bytes(te),
            },
        ),
        (SideInfo::Present(s), SideInfo::Present(t)) => {
            if *s == EntryKind::Directory && *t == EntryKind::Directory {
                None
            } else if *s == EntryKind::Symlink && *t == EntryKind::Symlink {
                None
            } else if *s == EntryKind::Regular && *t == EntryKind::Regular {
                match content {
                    Some(ContentOutcome::Digests(a, b)) => {
                        if crate::bytes::bytes_eq(a, b) {
                            None
                        } else {
                            Some(
                                DiagnosticRecord::ContentMismatch {
                                    src_path: sp,
                                    tgt_path: tp,
                                    src_digest: crate::bytes::copy_bytes(a),
                                    tgt_digest: crate::bytes::copy_bytes(b),
                                },
                            )
                        }
                    },
                    Some(ContentOutcome::SrcReadError(e)) => Some(
                        DiagnosticRecord::HashReadError {
                            src_path: sp,
                            tgt_path: tp,
                            side: Side::Source,
                            reason: crate::bytes::copy_bytes(e),
                        },
                    ),
                    Some(ContentOutcome::TgtReadError(e)) => Some(
                        DiagnosticRecord::HashReadError {
                            src_path: sp,
                            tgt_path: tp,
                            side: Side::Target,
                            reason: crate::bytes::copy_bytes(e),
                        },
                    ),
                    None => None,
                }
            } else {
                Some(DiagnosticRecord::TypeMismatch { src_path: sp, tgt_path: tp })
            }
        },
    }
}

/// Model view of an optional record.
pub open spec fn record_opt_view(r: Option<DiagnosticRecord>) -> Option<RecordModel> {
    match r {
        Some(rec) => Some(rec@),
        None => None,
    }
}

/// The category of a fully resolved pair, over the closed outcome set.
/// `None` only for a digest-stage read failure, which falls outside the set
/// and surfaces as its own diagnostic.
pub open spec fn spec_category(
    src: SideModel,
    tgt: SideModel,
    content: Option<ContentModel>,
) -> Option<EntryCategory> {
    match spec_classify(src, tgt) {
        PairDecision::MissingInBoth => Some(EntryCategory::MissingInBoth),
        PairDecision::MissingInSource => Some(EntryCategory::MissingInSource),
        PairDecision::MissingInTarget => Some(EntryCategory::MissingInTarget),
        PairDecision::BothDirectories => Some(EntryCategory::BothDirectories),
        PairDecision::BothSymlinks => Some(EntryCategory::BothSymlinks),
        PairDecision::TypeMismatch => Some(EntryCategory::TypeMismatch),
        PairDecision::CompareContents => match content {
            Some(ContentModel::Digests(a, b)) => {
                if a == b {
                    Some(EntryCategory::BothRegularContentMatch)
                } else {
                    Some(EntryCategory::BothRegularContentMismatch)
                }
            },
            _ => None,
        },
    }
}

/// Categorizes one fully resolved entry over the closed outcome set.
pub fn categorize(src: &SideInfo, tgt: &SideInfo, content: Option<&ContentOutcome>) -> (c: Option<
    EntryCategory,
>)
    requires
        (content is Some) <==> spec_classify(src@, tgt@) == PairDecision::CompareContents,
    ensures
        c == spec_category(src@, tgt@, content_opt_view(content)),
{
    match classify_pair(src, tgt) {
        PairDecision::MissingInBoth => Some(EntryCategory::MissingInBoth),
        PairDecision::MissingInSource => Some(EntryCategory::MissingInSource),
        PairDecision::MissingInTarget => Some(EntryCategory::MissingInTarget),
        PairDecision::BothDirectories => Some(EntryCategory::BothDirectories),
        PairDecision::BothSymlinks => Some(EntryCategory::BothSymlinks),
        PairDecision::TypeMismatch => Some(EntryCategory::TypeMismatch),
        PairDecision::CompareContents => match content {
            Some(ContentOutcome::Digests(a, b)) => {
                if crate::bytes::bytes_eq(a, b) {
                    Some(EntryCategory::BothRegularContentMatch)
                } else {
                    Some(EntryCategory::BothRegularContentMismatch)
                }
            },
            _ => None,
        },
    }
}

/// Silence means success: a resolved pair produces no diagnostic record
/// exactly when its category is one of the three matching outcomes.
pub proof fn lemma_silence_means_match(
    src_path: Seq<u8>,
    tgt_path: Seq<u8>,
    src: SideModel,
    tgt: SideModel,
    content: Option<ContentModel>,
)
    requires
        (content is Some) <==> spec_classify(src, tgt) == PairDecision::CompareContents,
        content matches Some(c) ==> c is Digests,
    ensures
        spec_entry_record(src_path, tgt_path, src, tgt, content) is None <==> (spec_category(
            src,
            tgt,
            content,
        ) matches Some(cat) && (cat == EntryCategory::BothDirectories || cat
            == EntryCategory::BothSymlinks || cat == EntryCategory::BothRegularContentMatch)),
{
}

} // verus!
