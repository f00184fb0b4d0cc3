//! The recordings directory as callers see it: listing entries filtered to
//! the container files, and the safety check that keeps any requested file
//! name inside the base directory.

use vstd::prelude::*;

use crate::timefmt::TimeParts;

verus! {

/// One directory entry as reported to listing callers.
#[derive(Debug)]
pub struct McapFileInfo {
    pub file_name: String,
    pub file_size: u64,
    pub modified: String,
}

impl Clone for McapFileInfo {
    /// A clone is spec-equal to the original.
    fn clone(&self) -> (r: Self)
        ensures
            r == *self,
    {
        McapFileInfo {
            file_name: self.file_name.clone(),
            file_size: self.file_size,
            modified: self.modified.clone(),
        }
    }
}

/// Two adjacent dots occur somewhere.
pub open spec fn has_dotdot(s: Seq<char>) -> bool {
    exists|i: int| 0 <= i && i + 1 < s.len() && #[trigger] s[i] == '.' && s[i + 1] == '.'
}

/// A path separator occurs somewhere.
pub open spec fn has_separator(s: Seq<char>) -> bool {
    exists|i: int| 0 <= i < s.len() && (#[trigger] s[i] == '/' || s[i] == '\\')
}

/// A name that is safe to resolve under the base directory: nonempty, no
/// separator, and no `..`.
pub open spec fn safe_file_name(s: Seq<char>) -> bool {
    s.len() > 0 && !has_dotdot(s) && !has_separator(s)
}

/// Decides whether a requested file name may be resolved under the base
/// directory; anything empty, with a separator, or with `..` is rejected.
pub fn file_name_is_safe(name: &str) -> (r: bool)
    ensures
        r == safe_file_name(name@),
{
    let n = name.unicode_len();
    if n == 0 {
        return false;
    }
    let mut i: usize = 0;
    while i < n
        invariant
            n == name@.len(),
            i <= n,
            forall|j: int| 0 <= j < i ==> !(#[trigger] name@[j] == '/' || name@[j] == '\\'),
            forall|j: int| 0 <= j && j + 1 < i ==> !(#[trigger] name@[j] == '.' && name@[j + 1] == '.'),
        decreases n - i,
    {
        let c = name.get_char(i);
        if c == '/' || c == '\\' {
            return false;
        }
        if i > 0 && c == '.' {
            let prev = name.get_char(i - 1);
            if prev == '.' {
                return false;
            }
        }
        i = i + 1;
    }
    true
}

/// The suffix that marks a container file.
pub open spec fn mcap_suffix() -> Seq<char> {
    seq!['.', 'm', 'c', 'a', 'p']
}

/// The name ends in `.mcap`.
pub open spec fn is_mcap_name(s: Seq<char>) -> bool {
    s.len() >= 5 && s.subrange(s.len() - 5, s.len() as int) == mcap_suffix()
}

/// Decides whether a file name ends in `.mcap`.
pub fn name_is_mcap(name: &str) -> (r: bool)
    ensures
        r == is_mcap_name(name@),
{
    let n = name.unicode_len();
    if n < 5 {
        return false;
    }
    let ok = name.get_char(n - 5) == '.' && name.get_char(n - 4) == 'm' && name.get_char(n - 3)
        == 'c' && name.get_char(n - 2) == 'a' && name.get_char(n - 1) == 'p';
    proof {
        if ok {
            assert(name@.subrange(name@.len() - 5, name@.len() as int) =~= mcap_suffix());
        } else {
            assert(name@.subrange(name@.len() - 5, name@.len() as int) != mcap_suffix()) by {
                if name@.subrange(name@.len() - 5, name@.len() as int) == mcap_suffix() {
                    assert(name@.subrange(name@.len() - 5, name@.len() as int)[0] == '.');
                    assert(name@.subrange(name@.len() - 5, name@.len() as int)[1] == 'm');
                    assert(name@.subrange(name@.len() - 5, name@.len() as int)[2] == 'c');
                    assert(name@.subrange(name@.len() - 5, name@.len() as int)[3] == 'a');
                    assert(name@.subrange(name@.len() - 5, name@.len() as int)[4] == 'p');
                }
            }
        }
    }
    ok
}

/// Whether a listing keeps this entry: container files always, everything
/// else only in a detailed listing.
pub open spec fn listing_keeps(f: McapFileInfo, detailed: bool) -> bool {
    is_mcap_name(f.file_name@) || detailed
}

/// Filters a directory listing: container files always, other entries only
/// when a detailed listing was asked for; order is kept.
pub fn filter_recordings(entries: &Vec<McapFileInfo>, detailed: bool) -> (r: Vec<McapFileInfo>)
    ensures
        r@ == entries@.filter(|f: McapFileInfo| listing_keeps(f, detailed)),
{
    let ghost pred = |f: McapFileInfo| listing_keeps(f, detailed);
    let mut out: Vec<McapFileInfo> = Vec::new();
    proof {
        reveal(Seq::filter);
        assert(entries@.subrange(0, 0).filter(pred) =~= Seq::<McapFileInfo>::empty());
    }
    let mut i: usize = 0;
    while i < entries.len()
        invariant
            i <= entries@.len(),
            out@ == entries@.subrange(0, i as int).filter(
                |f: McapFileInfo| listing_keeps(f, detailed),
            ),
        decreases entries@.len() - i,
    {
        proof {
            reveal(Seq::filter);
            assert(entries@.subrange(0, i + 1).drop_last() =~= entries@.subrange(0, i as int));
            assert(entries@.subrange(0, i + 1).last() == entries@[i as int]);
        }
        if name_is_mcap(entries[i].file_name.as_str()) || detailed {
            out.push(entries[i].clone());
        }
        i = i + 1;
    }
    proof {
        assert(entries@.subrange(0, entries@.len() as int) =~= entries@);
    }
    out
}

/// Lexicographic byte order: `x` sorts at or before `y`.
pub open spec fn lex_le(x: Seq<u8>, y: Seq<u8>) -> bool
    decreases x.len(),
{
    if x.len() == 0 {
        true
    } else if y.len() == 0 {
        false
    } else if x[0] < y[0] {
        true
    } else if x[0] > y[0] {
        false
    } else {
        lex_le(x.skip(1), y.skip(1))
    }
}

/// Lexicographic order is total.
proof fn lemma_lex_le_total(x: Seq<u8>, y: Seq<u8>)
    ensures
        lex_le(x, y) || lex_le(y, x),
    decreases x.len(),
{
    if x.len() > 0 && y.len() > 0 && x[0] == y[0] {
        lemma_lex_le_total(x.skip(1), y.skip(1));
    }
}

/// Lexicographic order is transitive.
proof fn lemma_lex_le_trans(x: Seq<u8>, y: Seq<u8>, z: Seq<u8>)
    requires
        lex_le(x, y),
        lex_le(y, z),
    ensures
        lex_le(x, z),
    decreases x.len(),
{
    if x.len() > 0 && y.len() > 0 && z.len() > 0 && x[0] == y[0] && y[0] == z[0] {
        lemma_lex_le_trans(x.skip(1), y.skip(1), z.skip(1));
    }
}

/// Decides the lexicographic byte order.
pub fn bytes_le(a: &[u8], b: &[u8]) -> (r: bool)
    ensures
        r == lex_le(a@, b@),
    decreases a@.len(),
{
    if a.len() == 0 {
        true
    } else if b.len() == 0 {
        false
    } else if a[0] < b[0] {
        true
    } else if a[0] > b[0] {
        false
    } else {
        bytes_le(
            vstd::slice::slice_subrange(a, 1, a.len()),
            vstd::slice::slice_subrange(b, 1, b.len()),
        )
    }
}

/// `a`'s modification stamp sorts at or after `b`'s: newest first.
pub open spec fn modified_ge(a: McapFileInfo, b: McapFileInfo) -> bool {
    lex_le(
        vstd::utf8::encode_utf8(b.modified@),
        vstd::utf8::encode_utf8(a.modified@),
    )
}

/// Decides `modified_ge` on two listing entries.
pub fn entry_modified_ge(a: &McapFileInfo, b: &McapFileInfo) -> (r: bool)
    ensures
        r == modified_ge(*a, *b),
{
    bytes_le(b.modified.as_str().as_bytes(), a.modified.as_str().as_bytes())
}

/// Sorts a listing newest first by modification stamp: the result is a
/// rearrangement of the input, ordered so that every entry's stamp sorts
/// at or after the next one's.
pub fn sort_by_modified_desc(entries: Vec<McapFileInfo>) -> (r: Vec<McapFileInfo>)
    ensures
        r@.to_multiset() == entries@.to_multiset(),
        forall|k1: int, k2: int|
            #![trigger r@[k1], r@[k2]]
            0 <= k1 < k2 < r@.len() ==> modified_ge(r@[k1], r@[k2]),
{
    broadcast use vstd::seq_lib::group_to_multiset_ensures;
    broadcast use vstd::seq_lib::to_multiset_remove;
    broadcast use vstd::seq_lib::to_multiset_build;

    let mut rest = entries;
    let ghost all = rest@;
    let mut out: Vec<McapFileInfo> = Vec::new();
    while rest.len() > 0
        invariant
            out@.to_multiset().add(rest@.to_multiset()) == all.to_multiset(),
            forall|k1: int, k2: int|
                #![trigger out@[k1], out@[k2]]
                0 <= k1 < k2 < out@.len() ==> modified_ge(out@[k1], out@[k2]),
            forall|k: int, j: int|
                #![trigger out@[k], rest@[j]]
                0 <= k < out@.len() && 0 <= j < rest@.len() ==> modified_ge(out@[k], rest@[j]),
        decreases rest@.len(),
    {
        let mut best: usize = 0;
        proof {
            lemma_lex_le_total(
                vstd::utf8::encode_utf8(rest@[0].modified@),
                vstd::utf8::encode_utf8(rest@[0].modified@),
            );
        }
        let mut j: usize = 1;
        while j < rest.len()
            invariant
                best < j <= rest@.len(),
                rest@.len() > 0,
                forall|k: int|
                    0 <= k < j ==> modified_ge(rest@[best as int], #[trigger] rest@[k]),
            decreases rest@.len() - j,
        {
            if !entry_modified_ge(&rest[best], &rest[j]) {
                proof {
                    lemma_lex_le_total(
                        vstd::utf8::encode_utf8(rest@[j as int].modified@),
                        vstd::utf8::encode_utf8(rest@[best as int].modified@),
                    );
                    assert forall|k: int|
                        0 <= k < j + 1 implies modified_ge(
                        rest@[j as int],
                        #[trigger] rest@[k],
                    ) by {
                        if k < j {
                            lemma_lex_le_trans(
                                vstd::utf8::encode_utf8(rest@[k].modified@),
                                vstd::utf8::encode_utf8(rest@[best as int].modified@),
                                vstd::utf8::encode_utf8(rest@[j as int].modified@),
                            );
                        } else {
                            lemma_lex_le_total(
                                vstd::utf8::encode_utf8(rest@[j as int].modified@),
                                vstd::utf8::encode_utf8(rest@[j as int].modified@),
                            );
                        }
                    }
                }
                best = j;
            } else {
                proof {
                    lemma_lex_le_total(
                        vstd::utf8::encode_utf8(rest@[j as int].modified@),
                        vstd::utf8::encode_utf8(rest@[j as int].modified@),
                    );
                }
            }
            j = j + 1;
        }
        let ghost rest_before = rest@;
        let ghost out_before = out@;
        let x = rest.remove(best);
        out.push(x);
        proof {
            assert(rest_before.contains(rest_before[best as int]));
            vstd::seq_lib::to_multiset_contains(rest_before, rest_before[best as int]);
            assert(rest_before.to_multiset().count(rest_before[best as int]) >= 1);
            vstd::seq_lib::to_multiset_remove(rest_before, best as int);
            vstd::seq_lib::to_multiset_build(out_before, x);
            assert(rest@ == rest_before.remove(best as int));
            assert(out@ == out_before.push(x));
            assert(out@.to_multiset().add(rest@.to_multiset()) =~= all.to_multiset());
            assert forall|k: int, jj: int|
                0 <= k < out@.len() && 0 <= jj < rest@.len() implies modified_ge(
                #[trigger] out@[k],
                #[trigger] rest@[jj],
            ) by {
                let orig_j = if jj < best { jj } else { jj + 1 };
                assert(rest@[jj] == rest_before[orig_j]);
                if k < out_before.len() {
                    assert(out@[k] == out_before[k]);
                } else {
                    assert(out@[k] == rest_before[best as int]);
                }
            }
        }
    }
    out
}

/// The per-device recording operations reachable over the service's
/// request surface.
#[derive(Clone, Copy, Debug, PartialEq, Eq, Structural)]
pub enum RecordingsManagerPostOptionsV1 {
    StartRecording,
    StopRecording,
    GetRecordingStatus,
}

/// Pairs a requested operation with the device it names, as a mailbox
/// command for the recording manager.
pub fn post_option_command(
    option: RecordingsManagerPostOptionsV1,
    id: crate::ids::DeviceId,
) -> (r: crate::recording::RecordingManagerCommand)
    ensures
        r == (match option {
            RecordingsManagerPostOptionsV1::StartRecording => crate::recording::RecordingManagerCommand::StartRecording(
                id,
            ),
            RecordingsManagerPostOptionsV1::StopRecording => crate::recording::RecordingManagerCommand::StopRecording(
                id,
            ),
            RecordingsManagerPostOptionsV1::GetRecordingStatus => crate::recording::RecordingManagerCommand::GetRecordingStatus(
                id,
            ),
        }),
{
    match option {
        RecordingsManagerPostOptionsV1::StartRecording => crate::recording::RecordingManagerCommand::StartRecording(
            id,
        ),
        RecordingsManagerPostOptionsV1::StopRecording => crate::recording::RecordingManagerCommand::StopRecording(
            id,
        ),
        RecordingsManagerPostOptionsV1::GetRecordingStatus => crate::recording::RecordingManagerCommand::GetRecordingStatus(
            id,
        ),
    }
}

/// The characters of the download response's disposition header value:
/// `inline; filename="{name}"` or `attachment; filename="{name}"`.
pub open spec fn disposition_chars(inline: bool, name: Seq<char>) -> Seq<char> {
    (if inline {
        seq!['i', 'n', 'l', 'i', 'n', 'e']
    } else {
        seq!['a', 't', 't', 'a', 'c', 'h', 'm', 'e', 'n', 't']
    }) + seq![';', ' ', 'f', 'i', 'l', 'e', 'n', 'a', 'm', 'e', '=', '"'] + name + seq!['"']
}

/// Renders the disposition header value for a served file: inline where the
/// caller asked to view it, an attachment otherwise.
pub fn content_disposition(inline: bool, name: &str) -> (r: String)
    ensures
        r@ == disposition_chars(inline, name@),
{
    proof {
        reveal_strlit("inline");
        reveal_strlit("attachment");
        reveal_strlit("; filename=\"");
        reveal_strlit("\"");
    }
    let mut s = if inline {
        String::from_str("inline")
    } else {
        String::from_str("attachment")
    };
    s.append("; filename=\"");
    s.append(name);
    s.append("\"");
    proof {
        assert("inline"@ =~= seq!['i', 'n', 'l', 'i', 'n', 'e']) by {
            reveal_strlit("inline");
        }
        assert("attachment"@ =~= seq!['a', 't', 't', 'a', 'c', 'h', 'm', 'e', 'n', 't']) by {
            reveal_strlit("attachment");
        }
        assert("; filename=\""@ =~= seq![';', ' ', 'f', 'i', 'l', 'e', 'n', 'a', 'm', 'e', '=', '"'])
            by {
            reveal_strlit("; filename=\"");
        }
        assert("\""@ =~= seq!['"']) by {
            reveal_strlit("\"");
        }
        assert(s@ =~= disposition_chars(inline, name@));
    }
    s
}

/// No hex digit character is a dot or a separator.
proof fn lemma_hex_char_benign(d: u8)
    ensures
        crate::ids::hex_char_of(d) != '.',
        crate::ids::hex_char_of(d) != '/',
        crate::ids::hex_char_of(d) != '\\',
{
}

/// The composed recording file name never escapes the base directory: it
/// has no separator and no `..`, so the log path always stays below the
/// base. Its one dot is the container suffix's.
pub proof fn lemma_recording_file_name_safe(id: u128, t: TimeParts)
    requires
        t.wf(),
    ensures
        safe_file_name(crate::recording::recording_file_name_chars(id, t)),
{
    let s = crate::recording::recording_file_name_chars(id, t);
    assert(s.len() == 64);
    assert forall|i: int| 0 <= i < 64 implies !(s[i] == '/' || s[i] == '\\') && (s[i] == '.' ==> i
        == 59) by {
        if i < 7 {
            assert(s[i] == seq!['d', 'e', 'v', 'i', 'c', 'e', '_'][i]);
        } else if i < 43 {
            assert(s[i] == crate::ids::device_id_chars(id)[i - 7]);
            if !(i - 7 == 8 || i - 7 == 13 || i - 7 == 18 || i - 7 == 23) {
                lemma_hex_char_benign(
                    crate::ids::id_nibble(id, crate::ids::hyphenated_digit_index(i - 7)) as u8,
                );
            }
        } else if i < 44 {
            assert(s[i] == '_');
        } else if i < 59 {
            assert(s[i] == crate::timefmt::timestamp_chars(t)[i - 44]);
            let k = i - 44;
            let ts = crate::timefmt::timestamp_chars(t);
            assert(ts[k] != '.' && ts[k] != '/' && ts[k] != '\\') by {
                lemma_hex_char_benign((t.year / 1000) as u8);
                lemma_hex_char_benign((t.year / 100 % 10) as u8);
                lemma_hex_char_benign((t.year / 10 % 10) as u8);
                lemma_hex_char_benign((t.year % 10) as u8);
                lemma_hex_char_benign(t.month / 10);
                lemma_hex_char_benign(t.month % 10);
                lemma_hex_char_benign(t.day / 10);
                lemma_hex_char_benign(t.day % 10);
                lemma_hex_char_benign(t.hour / 10);
                lemma_hex_char_benign(t.hour % 10);
                lemma_hex_char_benign(t.minute / 10);
                lemma_hex_char_benign(t.minute % 10);
                lemma_hex_char_benign(t.second / 10);
                lemma_hex_char_benign(t.second % 10);
            }
        } else {
            assert(s[i] == seq!['.', 'm', 'c', 'a', 'p'][i - 59]);
        }
    }
    assert(!has_separator(s));
    assert(!has_dotdot(s)) by {
        if has_dotdot(s) {
            let i = choose|i: int|
                0 <= i && i + 1 < s.len() && #[trigger] s[i] == '.' && s[i + 1] == '.';
            assert(i == 59 && i + 1 == 59);
        }
    }
}

} // verus!
