//! Text in characters and in UTF-8 bytes: cutting to a byte budget, writing numbers.

use vstd::prelude::*;
use vstd::string::*;
use vstd::utf8::*;

verus! {

/// The number of bytes that `s` takes in UTF-8.
pub open spec fn byte_len(s: Seq<char>) -> nat {
    encode_utf8(s).len()
}

/// `s` with characters taken from its end until at most `max` bytes are left.
pub open spec fn clip(s: Seq<char>, max: nat) -> Seq<char>
    decreases s.len(),
{
    if s.len() == 0 || byte_len(s) <= max {
        s
    } else {
        clip(s.drop_last(), max)
    }
}

proof fn lemma_encode_concat(a: Seq<char>, b: Seq<char>)
    ensures
        encode_utf8(a + b) == encode_utf8(a) + encode_utf8(b),
    decreases a.len(),
{
    if a.len() == 0 {
        assert(a + b == b);
        assert(encode_utf8(a) == Seq::<u8>::empty());
    } else {
        lemma_encode_concat(a.drop_first(), b);
        assert((a + b).drop_first() == a.drop_first() + b);
        assert(encode_utf8(a + b) == encode_utf8(a) + encode_utf8(b));
    }
}

/// The bytes of a prefix are a prefix of the bytes, so the prefix is never longer.
proof fn lemma_byte_len_monotone(s: Seq<char>, i: int, j: int)
    requires
        0 <= i <= j <= s.len(),
    ensures
        byte_len(s.take(i)) <= byte_len(s.take(j)),
{
    assert(s.take(j) == s.take(i) + s.subrange(i, j));
    lemma_encode_concat(s.take(i), s.subrange(i, j));
}

/// A cut between two characters falls on a character boundary of the bytes.
proof fn lemma_prefix_ends_on_boundary(s: Seq<char>, k: int)
    requires
        0 <= k <= s.len(),
    ensures
        is_char_boundary(encode_utf8(s), byte_len(s.take(k)) as int),
    decreases s.len(),
{
    encode_utf8_valid_utf8(s);
    if k == 0 {
        assert(encode_utf8(s.take(0)) == Seq::<u8>::empty());
    } else {
        let bytes = encode_utf8(s);
        let rest = s.drop_first();
        encode_utf8_first_scalar(s);
        assert(pop_first_scalar(bytes) == encode_utf8(rest));
        lemma_prefix_ends_on_boundary(rest, k - 1);
        assert(s.take(k).drop_first() == rest.take(k - 1));
        assert(encode_utf8(s.take(k)) == encode_scalar(s[0] as u32) + encode_utf8(rest.take(k - 1)));
        lemma_byte_len_monotone(s, k, s.len() as int);
        assert(s.take(s.len() as int) == s);
    }
}

/// The longest prefix that fits is what `clip` leaves.
proof fn lemma_clip_is(s: Seq<char>, max: nat, k: int)
    requires
        0 <= k <= s.len(),
        byte_len(s.take(k)) <= max,
        k < s.len() ==> byte_len(s.take(k + 1)) > max,
    ensures
        clip(s, max) == s.take(k),
    decreases s.len(),
{
    if k == s.len() {
        assert(s.take(k) == s);
    } else {
        lemma_byte_len_monotone(s, k + 1, s.len() as int);
        assert(s.take(s.len() as int) == s);
        let shorter = s.drop_last();
        assert(shorter.take(k) == s.take(k));
        if k < shorter.len() {
            assert(shorter.take(k + 1) == s.take(k + 1));
        }
        lemma_clip_is(shorter, max, k);
    }
}

/// `part` is the longest prefix of `s` that takes at most `max` bytes of UTF-8.
pub open spec fn is_longest_fitting(part: Seq<char>, s: Seq<char>, max: nat) -> bool {
    &&& part.is_prefix_of(s)
    &&& encode_utf8(part).len() <= max
    &&& forall|k: int|
        part.len() < k <= s.len() ==> encode_utf8(#[trigger] s.take(k)).len() > max
}

/// A text has at least as many bytes as characters.
pub proof fn lemma_bytes_and_characters(s: Seq<char>)
    ensures
        encode_utf8(s).len() >= s.len(),
    decreases s.len(),
{
    if s.len() > 0 {
        let rest = s.drop_last();
        lemma_bytes_and_characters(rest);
        let last = seq![s.last()];
        assert(s =~= rest + last);
        lemma_encode_concat(rest, last);
        encode_utf8_first_scalar(last);
        assert(last.len() == 1);
    }
}

/// Cutting keeps a prefix that is within the budget, and the longest such prefix: the next
/// character would not fit any more.
pub proof fn law_clip_is_longest_prefix(s: Seq<char>, max: nat)
    ensures
        clip(s, max).is_prefix_of(s),
        encode_utf8(clip(s, max)).len() <= max,
        forall|k: int|
            clip(s, max).len() < k <= s.len() ==> encode_utf8(#[trigger] s.take(k)).len() > max,
    decreases s.len(),
{
    if s.len() == 0 {
        assert(encode_utf8(s) == Seq::<u8>::empty());
    } else if byte_len(s) > max {
        let shorter = s.drop_last();
        law_clip_is_longest_prefix(shorter, max);
        assert forall|k: int| clip(s, max).len() < k <= s.len() implies byte_len(
            #[trigger] s.take(k),
        ) > max by {
            if k == s.len() {
                assert(s.take(k) == s);
            } else {
                assert(shorter.take(k) == s.take(k));
            }
        }
    }
}

/// A text that is within the budget is not cut.
pub proof fn law_fitting_text_is_kept(s: Seq<char>, max: nat)
    requires
        encode_utf8(s).len() <= max,
    ensures
        clip(s, max) == s,
{
}

/// Cutting a second time to the same budget changes nothing.
pub proof fn law_clip_idempotent(s: Seq<char>, max: nat)
    ensures
        clip(clip(s, max), max) == clip(s, max),
{
    law_clip_is_longest_prefix(s, max);
}

/// Cuts `s` to at most `max` bytes of UTF-8, never inside a character.
pub fn truncate_str(s: &str, max: usize) -> (r: String)
    ensures
        r@ == clip(s@, max as nat),
{
    if s.as_bytes().len() <= max {
        return s.to_owned();
    }
    let ghost bytes = s.spec_bytes();
    proof {
        encode_utf8_valid_utf8(s@);
        is_char_boundary_start_end_of_seq(bytes);
    }
    let mut end: usize = max;
    while !s.is_char_boundary(end)
        invariant
            end <= max,
            bytes == s.spec_bytes(),
            is_char_boundary(bytes, 0),
            forall|b: int| end < b <= max ==> !is_char_boundary(bytes, b),
        decreases end,
    {
        end = end - 1;
    }
    let (head, _tail) = s.split_at(end);
    proof {
        let k = head@.len() as int;
        decode_utf8_split(bytes, end as int);
        encode_utf8_decode_utf8(s@);
        encode_utf8_decode_utf8(head@);
        assert(head@ == s@.take(k));
        assert(bytes.len() > max);
        assert(k < s@.len()) by {
            if k == s@.len() {
                assert(s@.take(k) == s@);
            }
        }
        lemma_prefix_ends_on_boundary(s@, k + 1);
        assert(byte_len(s@.take(k + 1)) > max) by {
            let n = byte_len(s@.take(k + 1));
            assert(s@.take(k + 1) == head@ + seq![s@[k]]);
            lemma_encode_concat(head@, seq![s@[k]]);
            assert(encode_utf8(seq![s@[k]]).len() > 0) by {
                encode_utf8_first_scalar(seq![s@[k]]);
                assert(seq![s@[k]].len() == 1);
            }
            assert(n > end);
        }
        lemma_clip_is(s@, max as nat, k);
    }
    head.to_owned()
}

/// The decimal digit `d`.
pub open spec fn digit(d: nat) -> char {
    ('0' as nat + d) as char
}

/// `n` in decimal digits.
pub open spec fn digits(n: nat) -> Seq<char>
    decreases n,
{
    if n < 10 {
        seq![digit(n)]
    } else {
        digits(n / 10).push(digit(n % 10))
    }
}

/// `n` in decimal digits, after a minus sign where it is negative.
pub open spec fn decimal(n: int) -> Seq<char> {
    if n < 0 {
        seq!['-'] + digits((-n) as nat)
    } else {
        digits(n as nat)
    }
}

/// The number that decimal digits stand for, the last of them counting ones.
pub open spec fn number_of(digits: Seq<char>) -> int
    decreases digits.len(),
{
    if digits.len() == 0 {
        0
    } else {
        10 * number_of(digits.drop_last()) + (digits.last() as int - '0' as int)
    }
}

/// A number is written so that it can be read back, in digits alone, after a minus sign where it
/// is negative, and without a zero before other digits.
pub proof fn law_decimal_reads_back(n: int)
    ensures
        n >= 0 ==> number_of(decimal(n)) == n && is_numeral(decimal(n)),
        n < 0 ==> decimal(n).len() > 0 && decimal(n)[0] == '-' && number_of(decimal(n).skip(1))
            == -n && is_numeral(decimal(n).skip(1)),
{
    if n >= 0 {
        lemma_digits_read_back(n as nat);
    } else {
        lemma_digits_read_back((-n) as nat);
        assert(decimal(n).skip(1) =~= digits((-n) as nat));
    }
}

/// One or more digits, the first of which is no zero unless it is the only one.
pub open spec fn is_numeral(s: Seq<char>) -> bool {
    &&& s.len() > 0
    &&& forall|i: int| 0 <= i < s.len() ==> '0' <= #[trigger] s[i] <= '9'
    &&& s[0] == '0' ==> s.len() == 1
}

proof fn lemma_digits_read_back(n: nat)
    ensures
        number_of(digits(n)) == n,
        is_numeral(digits(n)),
        n > 0 ==> digits(n)[0] != '0',
    decreases n,
{
    if n < 10 {
        let s = digits(n);
        assert(s.drop_last() =~= Seq::empty());
        assert(number_of(s.drop_last()) == 0);
    } else {
        lemma_digits_read_back(n / 10);
        assert(digits(n).drop_last() =~= digits(n / 10));
        assert(digits(n)[0] == digits(n / 10)[0]);
    }
}

fn digit_text(d: u64) -> (r: &'static str)
    requires
        d < 10,
    ensures
        r@ == seq![digit(d as nat)],
{
    proof {
        reveal_strlit("0");
        reveal_strlit("1");
        reveal_strlit("2");
        reveal_strlit("3");
        reveal_strlit("4");
        reveal_strlit("5");
        reveal_strlit("6");
        reveal_strlit("7");
        reveal_strlit("8");
        reveal_strlit("9");
    }
    if d == 0 {
        "0"
    } else if d == 1 {
        "1"
    } else if d == 2 {
        "2"
    } else if d == 3 {
        "3"
    } else if d == 4 {
        "4"
    } else if d == 5 {
        "5"
    } else if d == 6 {
        "6"
    } else if d == 7 {
        "7"
    } else if d == 8 {
        "8"
    } else {
        "9"
    }
}

fn append_digits(out: &mut String, n: u64)
    ensures
        final(out)@ == old(out)@ + digits(n as nat),
    decreases n,
{
    if n >= 10 {
        append_digits(out, n / 10);
    }
    out.append(digit_text(n % 10));
    proof {
        let before = old(out)@;
        if n >= 10 {
            assert(before + digits(n as nat / 10) + seq![digit(n as nat % 10)] == before + digits(
                n as nat,
            ));
        }
    }
}

/// Writes `n` in decimal.
pub fn decimal_text(n: i64) -> (r: String)
    ensures
        r@ == decimal(n as int),
{
    let mut out = String::new();
    if n < 0 {
        out.append("-");
        let magnitude: u64 = (-(n + 1)) as u64 + 1;
        append_digits(&mut out, magnitude);
        proof {
            reveal_strlit("-");
            assert(out@ == seq!['-'] + digits((-n) as nat));
        }
    } else {
        append_digits(&mut out, n as u64);
        assert(out@ == digits(n as nat));
    }
    out
}

/// Whether a character has the Unicode property `White_Space`.
pub open spec fn is_white_space(c: char) -> bool {
    ||| '\u{9}' <= c <= '\u{d}'
    ||| c == '\u{20}'
    ||| c == '\u{85}'
    ||| c == '\u{a0}'
    ||| c == '\u{1680}'
    ||| '\u{2000}' <= c <= '\u{200a}'
    ||| '\u{2028}' <= c <= '\u{2029}'
    ||| c == '\u{202f}'
    ||| c == '\u{205f}'
    ||| c == '\u{3000}'
}

/// Whether a character is alphanumeric by `char::is_alphanumeric`.
pub uninterp spec fn is_alphanumeric(c: char) -> bool;

/// A text in lower case, as `str::to_lowercase` gives it.
pub uninterp spec fn lower_case(s: Seq<char>) -> Seq<char>;

/// `s` without the white space at its start.
pub open spec fn trimmed_start(s: Seq<char>) -> Seq<char>
    decreases s.len(),
{
    if s.len() > 0 && is_white_space(s[0]) {
        trimmed_start(s.drop_first())
    } else {
        s
    }
}

/// `s` without the white space at its end.
pub open spec fn trimmed_end(s: Seq<char>) -> Seq<char>
    decreases s.len(),
{
    if s.len() > 0 && is_white_space(s.last()) {
        trimmed_end(s.drop_last())
    } else {
        s
    }
}

/// `s` without the white space at its two ends.
pub open spec fn trimmed(s: Seq<char>) -> Seq<char> {
    trimmed_end(trimmed_start(s))
}

/// `str::trim` takes away the characters with the property `White_Space` at the two ends.
pub assume_specification[ str::trim ](s: &str) -> (r: &str)
    ensures
        r@ == trimmed(s@),
;

/// `str::to_lowercase`: the result depends on the text alone.
pub assume_specification[ str::to_lowercase ](s: &str) -> (r: String)
    ensures
        r@ == lower_case(s@),
;

/// `char::is_alphanumeric`: the result depends on the character alone.
pub assume_specification[ char::is_alphanumeric ](c: char) -> (r: bool)
    ensures
        r == is_alphanumeric(c),
;

/// What counts as white space, by the numbers of the characters.
pub proof fn law_white_space_by_number(c: char)
    ensures
        is_white_space(c) <==> {
            let n = c as int;
            9 <= n <= 13 || n == 32 || n == 133 || n == 160 || n == 5760 || 8192 <= n <= 8202
                || n == 8232 || n == 8233 || n == 8239 || n == 8287 || n == 12288
        },
{
}

/// Trimming takes away white space from the two ends and nothing else, and leaves none there.
pub proof fn law_trim_takes_only_the_ends(s: Seq<char>)
    ensures
        exists|i: int, j: int|
            0 <= i <= j <= s.len() && trimmed(s) == #[trigger] s.subrange(i, j) && (forall|k: int|
                (0 <= k < i || j <= k < s.len()) ==> is_white_space(#[trigger] s[k])),
        trimmed(s).len() > 0 ==> !is_white_space(trimmed(s)[0]) && !is_white_space(
            trimmed(s).last(),
        ),
{
    lemma_trimmed_start(s);
    let t = trimmed_start(s);
    lemma_trimmed_end(t);
    let i = s.len() - t.len();
    let j = i + trimmed(s).len();
    assert(trimmed(s) =~= s.subrange(i, j));
    assert forall|k: int| (0 <= k < i || j <= k < s.len()) implies is_white_space(
        #[trigger] s[k],
    ) by {
        if k >= j {
            assert(s[k] == t[k - i]);
        }
    }
    if trimmed(s).len() > 0 {
        assert(trimmed(s)[0] == t[0]);
    }
}

/// Trimming a second time changes nothing.
pub proof fn law_trim_idempotent(s: Seq<char>)
    ensures
        trimmed(trimmed(s)) == trimmed(s),
{
    lemma_trimmed_start(s);
    let t = trimmed_start(s);
    lemma_trimmed_end(t);
    let u = trimmed_end(t);
    if u.len() > 0 {
        assert(u[0] == t[0]);
    }
}

proof fn lemma_trimmed_start(s: Seq<char>)
    ensures
        trimmed_start(s).len() > 0 ==> !is_white_space(trimmed_start(s)[0]),
        trimmed_start(s).len() <= s.len(),
        trimmed_start(s) == s.skip(s.len() - trimmed_start(s).len()),
        forall|k: int|
            0 <= k < s.len() - trimmed_start(s).len() ==> is_white_space(#[trigger] s[k]),
    decreases s.len(),
{
    if s.len() > 0 && is_white_space(s[0]) {
        let rest = s.drop_first();
        lemma_trimmed_start(rest);
        assert(trimmed_start(s) =~= s.skip(s.len() - trimmed_start(s).len()));
        assert forall|k: int| 0 <= k < s.len() - trimmed_start(s).len() implies is_white_space(
            #[trigger] s[k],
        ) by {
            if k > 0 {
                assert(s[k] == rest[k - 1]);
            }
        }
    } else {
        assert(s.skip(0) =~= s);
    }
}

proof fn lemma_trimmed_end(s: Seq<char>)
    ensures
        trimmed_end(s).is_prefix_of(s),
        trimmed_end(s).len() > 0 ==> !is_white_space(trimmed_end(s).last()),
        forall|k: int| trimmed_end(s).len() <= k < s.len() ==> is_white_space(#[trigger] s[k]),
    decreases s.len(),
{
    if s.len() > 0 && is_white_space(s.last()) {
        let rest = s.drop_last();
        lemma_trimmed_end(rest);
        assert forall|k: int| trimmed_end(s).len() <= k < s.len() implies is_white_space(
            #[trigger] s[k],
        ) by {
            if k < s.len() - 1 {
                assert(s[k] == rest[k]);
            }
        }
    }
}

/// Whether some character of `s` is alphanumeric.
pub open spec fn has_alphanumeric(s: Seq<char>) -> bool {
    exists|i: int| 0 <= i < s.len() && is_alphanumeric(#[trigger] s[i])
}

/// There is an alphanumeric character in a text if and only if there is one in one of its parts,
/// down to the single character.
pub proof fn law_alphanumeric_by_parts(a: Seq<char>, b: Seq<char>, c: char)
    ensures
        !has_alphanumeric(Seq::empty()),
        has_alphanumeric(seq![c]) <==> is_alphanumeric(c),
        has_alphanumeric(a + b) <==> has_alphanumeric(a) || has_alphanumeric(b),
{
    assert(seq![c][0] == c);
    let s = a + b;
    if has_alphanumeric(a) {
        let i = choose|i: int| 0 <= i < a.len() && is_alphanumeric(#[trigger] a[i]);
        assert(s[i] == a[i]);
    }
    if has_alphanumeric(b) {
        let i = choose|i: int| 0 <= i < b.len() && is_alphanumeric(#[trigger] b[i]);
        assert(s[a.len() + i] == b[i]);
    }
    if has_alphanumeric(s) {
        let i = choose|i: int| 0 <= i < s.len() && is_alphanumeric(#[trigger] s[i]);
        if i < a.len() {
            assert(s[i] == a[i]);
        } else {
            assert(s[i] == b[i - a.len()]);
        }
    }
}

/// Looks for an alphanumeric character in `s`.
pub fn any_alphanumeric(s: &str) -> (r: bool)
    ensures
        r == has_alphanumeric(s@),
{
    for c in iter: s.chars()
        invariant
            iter.seq() == s@,
            forall|i: int| 0 <= i < iter.index() ==> !is_alphanumeric(#[trigger] s@[i]),
    {
        if c.is_alphanumeric() {
            return true;
        }
    }
    false
}

/// Compares two texts character by character.
pub fn same_text(a: &str, b: &str) -> (r: bool)
    ensures
        r == (a@ == b@),
{
    let x = a.as_bytes();
    let y = b.as_bytes();
    proof {
        encode_utf8_decode_utf8(a@);
        encode_utf8_decode_utf8(b@);
    }
    if x.len() != y.len() {
        return false;
    }
    let mut i: usize = 0;
    while i < x.len()
        invariant
            i <= x@.len(),
            x@.len() == y@.len(),
            x@ == encode_utf8(a@),
            y@ == encode_utf8(b@),
            forall|j: int| 0 <= j < i ==> x@[j] == y@[j],
        decreases x@.len() - i,
    {
        if x[i] != y[i] {
            return false;
        }
        i = i + 1;
    }
    assert(x@ == y@);
    true
}

} // verus!
