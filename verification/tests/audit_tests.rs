use backup_audit::audit::{audit_entries, ResolvedEntry};
use backup_audit::classify::{
    categorize, classify_pair, entry_record, ContentOutcome, DiagnosticRecord, EntryCategory,
    EntryKind, PairDecision, Side, SideInfo,
};
use backup_audit::digest::{digest_chunks, Digester};
use backup_audit::render::{push_hex, render_record, render_report};

fn b(s: &str) -> Vec<u8> {
    s.as_bytes().to_vec()
}

fn digest_of(bytes: &[u8]) -> Vec<u8> {
    let mut d = Digester::new();
    d.update(bytes);
    d.finalize()
}

fn hex_of(d: &Vec<u8>) -> Vec<u8> {
    let mut out: Vec<u8> = Vec::new();
    push_hex(&mut out, d);
    out
}

fn regular_pair(src_bytes: &[u8], tgt_bytes: &[u8]) -> ResolvedEntry {
    ResolvedEntry {
        src_path: b("/src/x"),
        tgt_path: b("/tgt/x"),
        src: SideInfo::Present(EntryKind::Regular),
        tgt: SideInfo::Present(EntryKind::Regular),
        content: Some(ContentOutcome::Digests(digest_of(src_bytes), digest_of(tgt_bytes))),
    }
}

#[test]
fn classify_table() {
    let dir = SideInfo::Present(EntryKind::Directory);
    let file = SideInfo::Present(EntryKind::Regular);
    let link = SideInfo::Present(EntryKind::Symlink);
    let other = SideInfo::Present(EntryKind::Other);
    let absent = SideInfo::Absent(b("no such file"));
    assert_eq!(classify_pair(&absent, &absent), PairDecision::MissingInBoth);
    assert_eq!(classify_pair(&absent, &file), PairDecision::MissingInSource);
    assert_eq!(classify_pair(&file, &absent), PairDecision::MissingInTarget);
    assert_eq!(classify_pair(&dir, &dir), PairDecision::BothDirectories);
    assert_eq!(classify_pair(&link, &link), PairDecision::BothSymlinks);
    assert_eq!(classify_pair(&file, &file), PairDecision::CompareContents);
    assert_eq!(classify_pair(&dir, &file), PairDecision::TypeMismatch);
    assert_eq!(classify_pair(&file, &link), PairDecision::TypeMismatch);
    assert_eq!(classify_pair(&other, &other), PairDecision::TypeMismatch);
}

#[test]
fn categorize_outcomes() {
    let file = SideInfo::Present(EntryKind::Regular);
    let dir = SideInfo::Present(EntryKind::Directory);
    let equal = ContentOutcome::Digests(digest_of(b"same"), digest_of(b"same"));
    let unequal = ContentOutcome::Digests(digest_of(b"one"), digest_of(b"two"));
    let failed = ContentOutcome::SrcReadError(b("interrupted"));
    assert_eq!(
        categorize(&file, &file, Some(&equal)),
        Some(EntryCategory::BothRegularContentMatch)
    );
    assert_eq!(
        categorize(&file, &file, Some(&unequal)),
        Some(EntryCategory::BothRegularContentMismatch)
    );
    assert_eq!(categorize(&file, &file, Some(&failed)), None);
    assert_eq!(categorize(&dir, &dir, None), Some(EntryCategory::BothDirectories));
    assert_eq!(
        categorize(&SideInfo::Absent(b("gone")), &dir, None),
        Some(EntryCategory::MissingInSource)
    );
}

#[test]
fn empty_walk_yields_empty_report() {
    let records = audit_entries(&Vec::new());
    assert_eq!(records.len(), 0);
    assert_eq!(render_report(&records), Vec::<u8>::new());
}

#[test]
fn identical_trees_are_silent() {
    let entries = vec![
        ResolvedEntry {
            src_path: b("/src/a"),
            tgt_path: b("/tgt/a"),
            src: SideInfo::Present(EntryKind::Directory),
            tgt: SideInfo::Present(EntryKind::Directory),
            content: None,
        },
        ResolvedEntry {
            src_path: b("/src/a/1.txt"),
            tgt_path: b("/tgt/a/1.txt"),
            src: SideInfo::Present(EntryKind::Regular),
            tgt: SideInfo::Present(EntryKind::Regular),
            content: Some(ContentOutcome::Digests(digest_of(b"hello"), digest_of(b"hello"))),
        },
        ResolvedEntry {
            src_path: b("/src/ln"),
            tgt_path: b("/tgt/ln"),
            src: SideInfo::Present(EntryKind::Symlink),
            tgt: SideInfo::Present(EntryKind::Symlink),
            content: None,
        },
    ];
    let records = audit_entries(&entries);
    assert_eq!(records.len(), 0);
    assert_eq!(render_report(&records), Vec::<u8>::new());
}

#[test]
fn content_mismatch_names_both_digests() {
    let records = audit_entries(&vec![regular_pair(b"foo", b"bar")]);
    assert_eq!(records.len(), 1);
    match &records[0] {
        DiagnosticRecord::ContentMismatch { src_path, tgt_path, src_digest, tgt_digest } => {
            assert_eq!(src_path, &b("/src/x"));
            assert_eq!(tgt_path, &b("/tgt/x"));
            assert_eq!(src_digest, &digest_of(b"foo"));
            assert_eq!(tgt_digest, &digest_of(b"bar"));
            assert_ne!(src_digest, tgt_digest);
        }
        _ => panic!("expected a content mismatch record"),
    }
}

#[test]
fn missing_entries_are_reported_once_per_side() {
    let only_in_source = ResolvedEntry {
        src_path: b("/src/a/2.txt"),
        tgt_path: b("/tgt/a/2.txt"),
        src: SideInfo::Present(EntryKind::Regular),
        tgt: SideInfo::Absent(b("No such file or directory")),
        content: None,
    };
    let only_in_target = ResolvedEntry {
        src_path: b("/src/b/3.txt"),
        tgt_path: b("/tgt/b/3.txt"),
        src: SideInfo::Absent(b("No such file or directory")),
        tgt: SideInfo::Present(EntryKind::Regular),
        content: None,
    };
    let records = audit_entries(&vec![only_in_source, only_in_target]);
    assert_eq!(records.len(), 2);
    assert!(matches!(&records[0], DiagnosticRecord::MissingInTarget { .. }));
    assert!(matches!(&records[1], DiagnosticRecord::MissingInSource { .. }));
}

#[test]
fn missing_on_both_sides_is_reported() {
    let entry = ResolvedEntry {
        src_path: b("/src/ghost"),
        tgt_path: b("/tgt/ghost"),
        src: SideInfo::Absent(b("Permission denied")),
        tgt: SideInfo::Absent(b("No such file or directory")),
        content: None,
    };
    let records = audit_entries(&vec![entry]);
    assert_eq!(records.len(), 1);
    match &records[0] {
        DiagnosticRecord::MissingInBoth { src_reason, tgt_reason, .. } => {
            assert_eq!(src_reason, &b("Permission denied"));
            assert_eq!(tgt_reason, &b("No such file or directory"));
        }
        _ => panic!("expected a missing-in-both record"),
    }
}

#[test]
fn type_mismatch_is_reported_once() {
    let entry = ResolvedEntry {
        src_path: b("/src/d"),
        tgt_path: b("/tgt/d"),
        src: SideInfo::Present(EntryKind::Directory),
        tgt: SideInfo::Present(EntryKind::Regular),
        content: None,
    };
    let records = audit_entries(&vec![entry]);
    assert_eq!(records.len(), 1);
    assert!(matches!(&records[0], DiagnosticRecord::TypeMismatch { .. }));
}

#[test]
fn read_failure_is_reported_for_the_pair() {
    let entry = ResolvedEntry {
        src_path: b("/src/f"),
        tgt_path: b("/tgt/f"),
        src: SideInfo::Present(EntryKind::Regular),
        tgt: SideInfo::Present(EntryKind::Regular),
        content: Some(ContentOutcome::TgtReadError(b("Input/output error"))),
    };
    let records = audit_entries(&vec![entry]);
    assert_eq!(records.len(), 1);
    match &records[0] {
        DiagnosticRecord::HashReadError { side, reason, .. } => {
            assert_eq!(*side, Side::Target);
            assert_eq!(reason, &b("Input/output error"));
        }
        _ => panic!("expected a read-failure record"),
    }
}

fn scenario_entries() -> Vec<ResolvedEntry> {
    vec![
        ResolvedEntry {
            src_path: b("/src/a/1.txt"),
            tgt_path: b("/tgt/a/1.txt"),
            src: SideInfo::Present(EntryKind::Regular),
            tgt: SideInfo::Present(EntryKind::Regular),
            content: Some(ContentOutcome::Digests(digest_of(b"hello"), digest_of(b"hello"))),
        },
        ResolvedEntry {
            src_path: b("/src/a/2.txt"),
            tgt_path: b("/tgt/a/2.txt"),
            src: SideInfo::Present(EntryKind::Regular),
            tgt: SideInfo::Absent(b("No such file or directory")),
            content: None,
        },
        ResolvedEntry {
            src_path: b("/src/b/3.txt"),
            tgt_path: b("/tgt/b/3.txt"),
            src: SideInfo::Absent(b("No such file or directory")),
            tgt: SideInfo::Present(EntryKind::Regular),
            content: None,
        },
        ResolvedEntry {
            src_path: b("/src/c.txt"),
            tgt_path: b("/tgt/c.txt"),
            src: SideInfo::Present(EntryKind::Regular),
            tgt: SideInfo::Present(EntryKind::Regular),
            content: Some(ContentOutcome::Digests(digest_of(b"foo"), digest_of(b"bar"))),
        },
    ]
}

#[test]
fn mixed_tree_scenario() {
    let records = audit_entries(&scenario_entries());
    assert_eq!(records.len(), 3);
    match &records[0] {
        DiagnosticRecord::MissingInTarget { src_path, .. } => {
            assert_eq!(src_path, &b("/src/a/2.txt"));
        }
        _ => panic!("expected missing-in-target first"),
    }
    match &records[1] {
        DiagnosticRecord::MissingInSource { tgt_path, .. } => {
            assert_eq!(tgt_path, &b("/tgt/b/3.txt"));
        }
        _ => panic!("expected missing-in-source second"),
    }
    match &records[2] {
        DiagnosticRecord::ContentMismatch { src_digest, tgt_digest, .. } => {
            assert_ne!(src_digest, tgt_digest);
        }
        _ => panic!("expected a content mismatch third"),
    }
}

#[test]
fn audit_is_idempotent() {
    let first = render_report(&audit_entries(&scenario_entries()));
    let second = render_report(&audit_entries(&scenario_entries()));
    assert_eq!(first, second);
    assert!(!first.is_empty());
}

#[test]
fn audit_order_does_not_change_the_record_set() {
    let mut reversed = scenario_entries();
    reversed.reverse();
    let mut one: Vec<Vec<u8>> =
        audit_entries(&scenario_entries()).iter().map(render_record).collect();
    let mut two: Vec<Vec<u8>> = audit_entries(&reversed).iter().map(render_record).collect();
    one.sort();
    two.sort();
    assert_eq!(one, two);
    assert_eq!(one.len(), 3);
}

#[test]
fn digest_matches_known_sha256_values() {
    assert_eq!(
        hex_of(&digest_of(b"hello")),
        b"2cf24dba5fb0a30e26e83b2ac5b9e29e1b161e5c1fa7425e73043362938b9824".to_vec()
    );
    assert_eq!(
        hex_of(&digest_of(b"")),
        b"e3b0c44298fc1c149afbf4c8996fb92427ae41e4649b934ca495991b7852b855".to_vec()
    );
}

#[test]
fn digest_agrees_with_sha2_directly() {
    let direct = {
        let mut h = <sha2::Sha256 as sha2::Digest>::new();
        sha2::Digest::update(&mut h, b"some file content");
        sha2::Digest::finalize(h).to_vec()
    };
    assert_eq!(digest_of(b"some file content"), direct);
}

#[test]
fn digest_is_deterministic_across_chunkings() {
    let whole = vec![b("hello world")];
    let split = vec![b("hel"), b("lo w"), b(""), b("orld")];
    let byte_at_a_time: Vec<Vec<u8>> =
        "hello world".as_bytes().iter().map(|x| vec![*x]).collect();
    let d1 = digest_chunks(&whole);
    let d2 = digest_chunks(&split);
    let d3 = digest_chunks(&byte_at_a_time);
    assert_eq!(d1, d2);
    assert_eq!(d1, d3);
    assert_eq!(d1, digest_of(b"hello world"));
    assert_eq!(d1.len(), 32);
}

#[test]
fn streaming_updates_equal_one_shot() {
    let mut d = Digester::new();
    d.update(b"hello ");
    d.update(b"world");
    assert_eq!(d.finalize(), digest_of(b"hello world"));
}
