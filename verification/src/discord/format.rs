//! Text forms used in Discord embeds: service names, tags and durations.
use vstd::prelude::*;
use vstd::string::*;
use vstd::utf8::*;

use crate::span::TimeSpan;
use crate::startup::{compact_duration, push_compact_duration};
use crate::text::{ascii_upper, push_char, string_of, uppercase, uppercase_of};

verus! {

broadcast use vstd::utf8::group_utf8_lib;

/// Whether the character at `i` begins a word: it is the first, or follows a hyphen.
pub open spec fn starts_word(s: Seq<char>, i: int) -> bool {
    i == 0 || s[i - 1] == '-'
}

/// What the character at `i` becomes in the display name: a hyphen becomes a space, the
/// first character of a word its upper-case form (as `char::to_uppercase` maps it), any
/// other character stays.
pub open spec fn display_piece(s: Seq<char>, i: int) -> Seq<char> {
    if s[i] == '-' {
        seq![' ']
    } else if starts_word(s, i) {
        uppercase_of(s[i])
    } else {
        seq![s[i]]
    }
}

/// A service name for display: the words between hyphens, each with its first character
/// in upper case, joined by single spaces (`lilitu-backend` becomes `Lilitu Backend`);
/// empty words stay empty.
pub open spec fn display_service_name(name: Seq<char>) -> Seq<char>
    decreases name.len(),
{
    if name.len() == 0 {
        Seq::<char>::empty()
    } else {
        display_service_name(name.drop_last()) + display_piece(name, name.len() - 1)
    }
}

/// The display name of an ASCII service name, character by character: a hyphen becomes a
/// space, the first character of a word its ASCII upper-case form, any other character
/// stays; the length is kept.
pub open spec fn ascii_display_name(name: Seq<char>) -> Seq<char> {
    Seq::new(
        name.len(),
        |i: int|
            if name[i] == '-' {
                ' '
            } else if starts_word(name, i) {
                ascii_upper(name[i])
            } else {
                name[i]
            },
    )
}

/// All characters are ASCII.
pub open spec fn all_ascii(s: Seq<char>) -> bool {
    forall|i: int| 0 <= i < s.len() ==> (#[trigger] s[i] as u32) < 128
}

/// Capitalizes a service name for display (`lilitu-backend` becomes `Lilitu Backend`).
pub fn capitalize_service(name: &str) -> (r: String)
    ensures
        r@ == display_service_name(name@),
        all_ascii(name@) ==> r@ == ascii_display_name(name@),
{
    let n = name.unicode_len();
    let mut out = String::new();
    let mut prev_hyphen = true;
    let mut i: usize = 0;
    while i < n
        invariant
            n == name@.len(),
            0 <= i <= n,
            prev_hyphen == starts_word(name@, i as int),
            out@ == display_service_name(name@.subrange(0, i as int)),
            all_ascii(name@) ==> out@ == ascii_display_name(name@.subrange(0, i as int)),
        decreases n - i,
    {
        let c = name.get_char(i);
        let ghost pre = name@.subrange(0, i as int);
        let ghost next = name@.subrange(0, i + 1);
        assert(next.drop_last() =~= pre);
        assert(display_piece(next, i as int) == display_piece(name@, i as int));
        let ghost before = out@;
        if c == '-' {
            push_char(&mut out, ' ');
        } else if prev_hyphen {
            let up = uppercase(c);
            out.append(up.as_str());
        } else {
            push_char(&mut out, c);
        }
        assert(out@ =~= before + display_piece(name@, i as int));
        proof {
            if all_ascii(name@) {
                assert((name@[i as int] as u32) < 128);
                assert(out@ =~= ascii_display_name(next));
            }
        }
        prev_hyphen = c == '-';
        i = i + 1;
    }
    assert(name@.subrange(0, n as int) =~= name@);
    out
}

/// Where a tag of `byte_len` bytes is cut: three bytes short of `max_len`, or at zero.
pub open spec fn cut_point(max_len: nat) -> nat {
    if max_len >= 3 {
        (max_len - 3) as nat
    } else {
        0
    }
}

/// Whether truncating `tag` to `max_len` bytes stays on a character boundary, as the
/// byte slicing in the truncation requires.
pub open spec fn truncation_ok(tag: Seq<char>, max_len: nat) -> bool {
    encode_utf8(tag).len() > max_len ==> is_char_boundary(encode_utf8(tag), cut_point(max_len) as int)
}

/// A tag of at most `max_len` bytes is kept; a longer one is cut to its first
/// `max_len - 3` bytes (none when `max_len < 3`), followed by `...`.
pub open spec fn truncated(tag: Seq<char>, max_len: nat) -> Seq<char> {
    if encode_utf8(tag).len() <= max_len {
        tag
    } else {
        decode_utf8(encode_utf8(tag).subrange(0, cut_point(max_len) as int)) + "..."@
    }
}

/// Whether the tag can be truncated to `max_len` bytes without cutting a character.
pub fn can_truncate(tag: &str, max_len: usize) -> (r: bool)
    ensures
        r == truncation_ok(tag@, max_len as nat),
{
    if tag.as_bytes().len() <= max_len {
        true
    } else {
        tag.is_char_boundary(max_len.saturating_sub(3))
    }
}

/// Truncates a tag to `max_len` bytes, marking the cut with `...`.
pub fn truncate_tag(tag: &str, max_len: usize) -> (r: String)
    requires
        truncation_ok(tag@, max_len as nat),
    ensures
        r@ == truncated(tag@, max_len as nat),
{
    if tag.as_bytes().len() <= max_len {
        string_of(tag)
    } else {
        let cut = max_len.saturating_sub(3);
        let (head, _) = tag.split_at(cut);
        proof {
            assert(encode_utf8(head@) == encode_utf8(tag@).subrange(0, cut as int));
        }
        let mut s = string_of(head);
        s.append("...");
        s
    }
}

/// A span for an embed field: the compact form between backticks.
pub open spec fn duration_field(total_nanos: nat) -> Seq<char> {
    "`"@ + compact_duration(total_nanos) + "`"@
}

/// Formats a span for an embed field: `` `42ms` `` below one second, else seconds with
/// one decimal, `` `1.2s` ``.
pub fn format_duration(duration: TimeSpan) -> (r: String)
    ensures
        r@ == duration_field(duration@),
{
    let mut s = string_of("`");
    push_compact_duration(&mut s, &duration);
    s.append("`");
    s
}


/// Encoding a concatenation concatenates the encodings.
pub proof fn lemma_encode_utf8_concat(a: Seq<char>, b: Seq<char>)
    ensures
        encode_utf8(a + b) == encode_utf8(a) + encode_utf8(b),
    decreases a.len(),
{
    if a.len() > 0 {
        lemma_encode_utf8_concat(a.drop_first(), b);
        assert((a + b).drop_first() =~= a.drop_first() + b);
        assert(encode_utf8(a + b) =~= encode_utf8(a) + encode_utf8(b));
    } else {
        assert(a + b =~= b);
        assert(encode_utf8(a) =~= Seq::<u8>::empty());
        assert(encode_utf8(a) + encode_utf8(b) =~= encode_utf8(b));
    }
}

/// A truncated tag never exceeds its limit of `max_len` bytes (for limits of at least
/// three bytes, room for the `...` mark), and a tag within the limit is kept as it is.
pub proof fn lemma_truncated_fits(tag: Seq<char>, max_len: nat)
    requires
        truncation_ok(tag, max_len),
        max_len >= 3,
    ensures
        encode_utf8(truncated(tag, max_len)).len() <= max_len,
        encode_utf8(tag).len() <= max_len ==> truncated(tag, max_len) == tag,
{
    let bytes = encode_utf8(tag);
    if bytes.len() > max_len {
        let k = cut_point(max_len) as int;
        let head = bytes.subrange(0, k);
        assert(valid_utf8(bytes));
        assert(valid_utf8(head));
        assert(encode_utf8(decode_utf8(head)) == head);
        reveal_strlit("...");
        let dots = "..."@;
        assert(dots.len() == 3);
        assert(encode_utf8(dots).len() == 3) by {
            assert(dots.drop_first().drop_first().drop_first() =~= Seq::<char>::empty());
            reveal_with_fuel(encode_utf8, 4);
        }
        lemma_encode_utf8_concat(decode_utf8(head), dots);
    }
}

} // verus!
