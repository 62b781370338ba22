//! Rendering of diagnostic records into the report's byte stream, and the
//! status-line trim used beside a progress display. Each record renders as
//! one self-describing block; paths and error text are quoted with escapes so
//! a block is always a contiguous, complete unit.

use vstd::prelude::*;
use vstd::string::*;

use crate::classify::{DiagnosticRecord, RecordModel, Side};

verus! {

/// Lowercase hexadecimal digit for a nibble.
pub open spec fn hex_digit(n: u8) -> u8 {
    if n < 10 {
        (0x30 + n) as u8
    } else {
        (0x57 + n) as u8
    }
}

/// How one byte appears inside a quoted field: printable ASCII stands for
/// itself, quote and backslash are escaped, everything else appears as a
/// two-digit hexadecimal escape.
pub open spec fn escape_byte(b: u8) -> Seq<u8> {
    if b == 0x22 {
        seq![0x5cu8, 0x22u8]
    } else if b == 0x5c {
        seq![0x5cu8, 0x5cu8]
    } else if 0x20 <= b <= 0x7e {
        seq![b]
    } else {
        seq![0x5cu8, 0x78u8, hex_digit(b / 16), hex_digit(b % 16)]
    }
}

/// Escaped form of a whole byte string.
pub open spec fn escaped(s: Seq<u8>) -> Seq<u8>
    decreases s.len(),
{
    if s.len() == 0 {
        Seq::empty()
    } else {
        escaped(s.drop_last()) + escape_byte(s.last())
    }
}

/// A quoted field: escaped content between double quotes.
pub open spec fn quoted(s: Seq<u8>) -> Seq<u8> {
    seq![0x22u8] + escaped(s) + seq![0x22u8]
}

/// Lowercase hexadecimal rendering of a byte string, two digits per byte.
pub open spec fn hex_bytes(s: Seq<u8>) -> Seq<u8>
    decreases s.len(),
{
    if s.len() == 0 {
        Seq::empty()
    } else {
        hex_bytes(s.drop_last()) + seq![hex_digit(s.last() / 16), hex_digit(s.last() % 16)]
    }
}

/// The exact bytes of one rendered diagnostic block.
pub open spec fn spec_render(r: RecordModel) -> Seq<u8> {
    match r {
        RecordModel::MissingInTarget { src_path, tgt_path, reason } => {
            "Found missing file in target\nsrc=".spec_bytes() + quoted(src_path)
                + "\ntgt=".spec_bytes() + quoted(tgt_path) + "\nReason:".spec_bytes() + quoted(
                reason,
            ) + "\n".spec_bytes()
        },
        RecordModel::MissingInSource { src_path, tgt_path, reason } => {
            "Found missing file in source\nsrc=".spec_bytes() + quoted(src_path)
                + "\ntgt=".spec_bytes() + quoted(tgt_path) + "\nReason:".spec_bytes() + quoted(
                reason,
            ) + "\n".spec_bytes()
        },
        RecordModel::MissingInBoth { src_path, tgt_path, src_reason, tgt_reason } => {
            "Found missing file in source and target\nsrc=".spec_bytes() + quoted(src_path)
                + "\ntgt=".spec_bytes() + quoted(tgt_path) + "\nSrcReason:".spec_bytes() + quoted(
                src_reason,
            ) + "\nTgtReason:".spec_bytes() + quoted(tgt_reason) + "\n".spec_bytes()
        },
        RecordModel::TypeMismatch { src_path, tgt_path } => {
            "Found mismatched file types\nsrc=".spec_bytes() + quoted(src_path)
                + "\ntgt=".spec_bytes() + quoted(tgt_path) + "\n".spec_bytes()
        },
        RecordModel::ContentMismatch { src_path, tgt_path, src_digest, tgt_digest } => {
            "Found mismatched sha256 hashes:\nsrc=".spec_bytes() + quoted(src_path)
                + "\n".spec_bytes() + hex_bytes(src_digest) + "\ntgt=".spec_bytes() + quoted(
                tgt_path,
            ) + "\n".spec_bytes() + hex_bytes(tgt_digest) + "\n".spec_bytes()
        },
        RecordModel::HashReadError { src_path, tgt_path, side, reason } => {
            "Found read failure while hashing\nsrc=".spec_bytes() + quoted(src_path)
                + "\ntgt=".spec_bytes() + quoted(tgt_path) + "\nSide:".spec_bytes() + (if side
                == Side::Source {
                "source".spec_bytes()
            } else {
                "target".spec_bytes()
            }) + "\nReason:".spec_bytes() + quoted(reason) + "\n".spec_bytes()
        },
    }
}

/// Lowercase hexadecimal digit for a nibble, as a byte.
pub fn hex_digit_byte(n: u8) -> (r: u8)
    requires
        n < 16,
    ensures
        r == hex_digit(n),
{
    if n < 10 {
        0x30 + n
    } else {
        0x57 + n
    }
}

/// Appends the bytes of a literal to `out`.
fn push_lit(out: &mut Vec<u8>, s: &str)
    ensures
        final(out)@ == old(out)@ + s.spec_bytes(),
{
    let v = s.as_bytes_vec();
    crate::bytes::push_all(out, &v);
}

/// Appends the quoted form of `s` to `out`.
pub fn push_quoted(out: &mut Vec<u8>, s: &Vec<u8>)
    ensures
        final(out)@ == old(out)@ + quoted(s@),
{
    out.push(0x22);
    let mut i: usize = 0;
    while i < s.len()
        invariant
            i <= s@.len(),
            out@ == old(out)@ + seq![0x22u8] + escaped(s@.take(i as int)),
        decreases s@.len() - i,
    {
        let b = s[i];
        if b == 0x22 {
            out.push(0x5c);
            out.push(0x22);
        } else if b == 0x5c {
            out.push(0x5c);
            out.push(0x5c);
        } else if 0x20 <= b && b <= 0x7e {
            out.push(b);
        } else {
            out.push(0x5c);
            out.push(0x78);
            out.push(hex_digit_byte(b / 16));
            out.push(hex_digit_byte(b % 16));
        }
        proof {
            assert(s@.take(i as int + 1).drop_last() =~= s@.take(i as int));
            assert(s@.take(i as int + 1).last() == s@[i as int]);
            assert(out@ =~= old(out)@ + seq![0x22u8] + escaped(s@.take(i as int + 1)));
        }
        i += 1;
    }
    out.push(0x22);
    proof {
        assert(s@.take(s@.len() as int) =~= s@);
        assert(out@ =~= old(out)@ + quoted(s@));
    }
}

/// Appends the hexadecimal rendering of `d` to `out`.
pub fn push_hex(out: &mut Vec<u8>, d: &Vec<u8>)
    ensures
        final(out)@ == old(out)@ + hex_bytes(d@),
{
    let mut i: usize = 0;
    while i < d.len()
        invariant
            i <= d@.len(),
            out@ == old(out)@ + hex_bytes(d@.take(i as int)),
        decreases d@.len() - i,
    {
        let b = d[i];
        out.push(hex_digit_byte(b / 16));
        out.push(hex_digit_byte(b % 16));
        proof {
            assert(d@.take(i as int + 1).drop_last() =~= d@.take(i as int));
            assert(d@.take(i as int + 1).last() == d@[i as int]);
            assert(out@ =~= old(out)@ + hex_bytes(d@.take(i as int + 1)));
        }
        i += 1;
    }
    proof {
        assert(d@.take(d@.len() as int) =~= d@);
    }
}

/// Renders one diagnostic record as its report block.
pub fn render_record(rec: &DiagnosticRecord) -> (out: Vec<u8>)
    ensures
        out@ == spec_render(rec@),
{
    let mut out: Vec<u8> = Vec::new();
    match rec {
        DiagnosticRecord::MissingInTarget { src_path, tgt_path, reason } => {
            push_lit(&mut out, "Found missing file in target\nsrc=");
            push_quoted(&mut out, src_path);
            push_lit(&mut out, "\ntgt=");
            push_quoted(&mut out, tgt_path);
            push_lit(&mut out, "\nReason:");
            push_quoted(&mut out, reason);
            push_lit(&mut out, "\n");
        },
        DiagnosticRecord::MissingInSource { src_path, tgt_path, reason } => {
            push_lit(&mut out, "Found missing file in source\nsrc=");
            push_quoted(&mut out, src_path);
            push_lit(&mut out, "\ntgt=");
            push_quoted(&mut out, tgt_path);
            push_lit(&mut out, "\nReason:");
            push_quoted(&mut out, reason);
            push_lit(&mut out, "\n");
        },
        DiagnosticRecord::MissingInBoth { src_path, tgt_path, src_reason, tgt_reason } => {
            push_lit(&mut out, "Found missing file in source and target\nsrc=");
            push_quoted(&mut out, src_path);
            push_lit(&mut out, "\ntgt=");
            push_quoted(&mut out, tgt_path);
            push_lit(&mut out, "\nSrcReason:");
            push_quoted(&mut out, src_reason);
            push_lit(&mut out, "\nTgtReason:");
            push_quoted(&mut out, tgt_reason);
            push_lit(&mut out, "\n");
        },
        DiagnosticRecord::TypeMismatch { src_path, tgt_path } => {
            push_lit(&mut out, "Found mismatched file types\nsrc=");
            push_quoted(&mut out, src_path);
            push_lit(&mut out, "\ntgt=");
            push_quoted(&mut out, tgt_path);
            push_lit(&mut out, "\n");
        },
        DiagnosticRecord::ContentMismatch { src_path, tgt_path, src_digest, tgt_digest } => {
            push_lit(&mut out, "Found mismatched sha256 hashes:\nsrc=");
            push_quoted(&mut out, src_path);
            push_lit(&mut out, "\n");
            push_hex(&mut out, src_digest);
            push_lit(&mut out, "\ntgt=");
            push_quoted(&mut out, tgt_path);
            push_lit(&mut out, "\n");
            push_hex(&mut out, tgt_digest);
            push_lit(&mut out, "\n");
        },
        DiagnosticRecord::HashReadError { src_path, tgt_path, side, reason } => {
            push_lit(&mut out, "Found read failure while hashing\nsrc=");
            push_quoted(&mut out, src_path);
            push_lit(&mut out, "\ntgt=");
            push_quoted(&mut out, tgt_path);
            push_lit(&mut out, "\nSide:");
            if *side == Side::Source {
                push_lit(&mut out, "source");
            } else {
                push_lit(&mut out, "target");
            }
            push_lit(&mut out, "\nReason:");
            push_quoted(&mut out, reason);
            push_lit(&mut out, "\n");
        },
    }
    proof {
        assert(out@ =~= spec_render(rec@));
    }
    out
}

/// The exact bytes of a whole report: the blocks of the records in order.
pub open spec fn spec_render_all(rs: Seq<RecordModel>) -> Seq<u8>
    decreases rs.len(),
{
    if rs.len() == 0 {
        Seq::empty()
    } else {
        spec_render_all(rs.drop_last()) + spec_render(rs.last())
    }
}

/// Renders a whole report from the records in submission order.
pub fn render_report(records: &Vec<DiagnosticRecord>) -> (out: Vec<u8>)
    ensures
        out@ == spec_render_all(records@.map_values(|r: DiagnosticRecord| r@)),
{
    let ghost models = records@.map_values(|r: DiagnosticRecord| r@);
    let mut out: Vec<u8> = Vec::new();
    let mut i: usize = 0;
    while i < records.len()
        invariant
            i <= records@.len(),
            models == records@.map_values(|r: DiagnosticRecord| r@),
            out@ == spec_render_all(models.take(i as int)),
        decreases records@.len() - i,
    {
        let block = render_record(&records[i]);
        crate::bytes::push_all(&mut out, &block);
        proof {
            assert(models.take(i as int + 1).drop_last() =~= models.take(i as int));
            assert(models.take(i as int + 1).last() == records@[i as int]@);
        }
        i += 1;
    }
    proof {
        assert(models.take(models.len() as int) =~= models);
    }
    out
}

/// What the status-line trim keeps: for a line longer than the width, the
/// tail that starts `width` characters before the end (so `width + 1` bytes
/// stay); a line that fits is kept whole.
pub open spec fn spec_trim_tail(s: Seq<u8>, width: int) -> Seq<u8> {
    if s.len() > width {
        s.skip(s.len() - width - 1)
    } else {
        s
    }
}

/// Trims a status line to a terminal of `width` columns, keeping the tail.
pub fn trim_tail(s: &Vec<u8>, width: usize) -> (r: Vec<u8>)
    ensures
        r@ == spec_trim_tail(s@, width as int),
{
    let start: usize = if s.len() > width {
        s.len() - width - 1
    } else {
        0
    };
    let mut r: Vec<u8> = Vec::new();
    let mut i: usize = start;
    while i < s.len()
        invariant
            start <= i <= s@.len(),
            r@ == s@.subrange(start as int, i as int),
        decreases s@.len() - i,
    {
        r.push(s[i]);
        proof {
            assert(s@.subrange(start as int, i as int + 1) =~= s@.subrange(
                start as int,
                i as int,
            ).push(s@[i as int]));
        }
        i += 1;
    }
    proof {
        assert(r@ =~= spec_trim_tail(s@, width as int));
    }
    r
}

} // verus!
