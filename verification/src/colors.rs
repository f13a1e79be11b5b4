//! Colours chosen by rule: the palette entry of a slide group, the semantic
//! colour of a group label, and a colour typed as a hex code.
use vstd::prelude::*;
use crate::text::{chars_of, trim, trim_chars};
use vstd::string::StringSliceAdditionalSpecFns;

verus! {

/// The palette that tells slide groups apart.
pub open spec fn group_palette(i: int) -> (u8, u8, u8) {
    if i == 0 {
        (52, 120, 246)
    } else if i == 1 {
        (255, 149, 0)
    } else if i == 2 {
        (52, 199, 89)
    } else if i == 3 {
        (255, 59, 48)
    } else if i == 4 {
        (175, 82, 222)
    } else if i == 5 {
        (255, 204, 0)
    } else if i == 6 {
        (0, 199, 190)
    } else {
        (162, 132, 94)
    }
}

/// The number of palette entries.
pub const GROUP_COLOR_COUNT: usize = 8;

/// The palette entry `i` (taken modulo the palette size).
pub fn group_palette_entry(i: usize) -> (c: (u8, u8, u8))
    ensures
        c == group_palette((i % GROUP_COLOR_COUNT) as int),
{
    match i % GROUP_COLOR_COUNT {
        0 => (52, 120, 246),
        1 => (255, 149, 0),
        2 => (52, 199, 89),
        3 => (255, 59, 48),
        4 => (175, 82, 222),
        5 => (255, 204, 0),
        6 => (0, 199, 190),
        _ => (162, 132, 94),
    }
}

/// The hash of a label's UTF-8 bytes: `acc * 31 + byte` from the first byte
/// on, wrapping at the width of `usize`.
pub open spec fn label_hash(bytes: Seq<u8>) -> int
    decreases bytes.len(),
{
    if bytes.len() == 0 {
        0
    } else {
        (label_hash(bytes.drop_last()) * 31 + bytes.last()) % (usize::MAX as int + 1)
    }
}

/// The palette colour of a slide group label: the same label always gets the
/// same colour, in every panel.
pub fn group_color(label: &str) -> (c: (u8, u8, u8))
    ensures
        c == group_palette(label_hash(label.spec_bytes()) % 8),
{
    let bytes = label.as_bytes();
    let n = bytes.len();
    let mut hash: usize = 0;
    for i in 0..n
        invariant
            n == bytes@.len(),
            bytes@ == label.spec_bytes(),
            hash as int == label_hash(bytes@.take(i as int)),
    {
        assert(bytes@.take(i + 1).drop_last() =~= bytes@.take(i as int));
        let b: u8 = bytes[i];
        let h = hash.wrapping_mul(31).wrapping_add(b as usize);
        proof {
            assert(h as int == ((hash as int * 31) % (usize::MAX as int + 1) + b as int) % (
            usize::MAX as int + 1)) by {
                let m = usize::MAX as int + 1;
                assert(hash.wrapping_mul(31) as int == (hash as int * 31) % m);
            }
            let m = usize::MAX as int + 1;
            vstd::arithmetic::div_mod::lemma_add_mod_noop(hash as int * 31, b as int, m);
            vstd::arithmetic::div_mod::lemma_mod_twice(hash as int * 31, m);
        }
        hash = h;
    }
    assert(bytes@.take(n as int) =~= bytes@);
    group_palette_entry(hash)
}

/// The semantic colour of a group label: verses blue, choruses pink, bridges
/// purple, tags red and so on; grey for any other label.
pub open spec fn group_option_rgb(label: Seq<char>) -> (u8, u8, u8) {
    if label == "Verse"@ {
        (30, 146, 245)
    } else if label == "Verse 1"@ {
        (29, 129, 229)
    } else if label == "Verse 2"@ {
        (24, 114, 214)
    } else if label == "Verse 3"@ {
        (21, 97, 194)
    } else if label == "Verse 4"@ {
        (18, 84, 171)
    } else if label == "Verse 5"@ {
        (17, 74, 152)
    } else if label == "Verse 6"@ {
        (15, 66, 136)
    } else if label == "Chorus"@ {
        (222, 20, 109)
    } else if label == "Chorus 1"@ {
        (205, 18, 99)
    } else if label == "Chorus 2"@ {
        (186, 16, 90)
    } else if label == "Chorus 3"@ {
        (167, 15, 82)
    } else if label == "Chorus 4"@ {
        (148, 14, 74)
    } else if label == "Bridge"@ {
        (120, 35, 206)
    } else if label == "Bridge 1"@ {
        (108, 30, 186)
    } else if label == "Bridge 2"@ {
        (95, 25, 164)
    } else if label == "Bridge 3"@ {
        (83, 22, 145)
    } else if label == "PreChorus"@ {
        (203, 40, 156)
    } else if label == "Tag"@ {
        (214, 56, 45)
    } else if label == "Intro"@ {
        (185, 182, 44)
    } else if label == "Ending"@ {
        (164, 163, 39)
    } else if label == "Outro"@ {
        (144, 143, 35)
    } else if label == "Interlude"@ {
        (54, 190, 94)
    } else if label == "Vamp"@ {
        (45, 173, 84)
    } else if label == "Turnaround"@ {
        (39, 156, 74)
    } else if label == "Blank"@ {
        (0, 0, 0)
    } else {
        (95, 95, 95)
    }
}

/// Whether two texts are equal.
pub fn same_text(a: &str, b: &str) -> (r: bool)
    ensures
        r == (a@ == b@),
{
    a.to_owned() == b.to_owned()
}

/// The semantic colour of a group label; see [`group_option_rgb`].
pub fn group_option_color(label: &str) -> (c: (u8, u8, u8))
    ensures
        c == group_option_rgb(label@),
{
    if same_text(label, "Verse") {
        (30, 146, 245)
    } else if same_text(label, "Verse 1") {
        (29, 129, 229)
    } else if same_text(label, "Verse 2") {
        (24, 114, 214)
    } else if same_text(label, "Verse 3") {
        (21, 97, 194)
    } else if same_text(label, "Verse 4") {
        (18, 84, 171)
    } else if same_text(label, "Verse 5") {
        (17, 74, 152)
    } else if same_text(label, "Verse 6") {
        (15, 66, 136)
    } else if same_text(label, "Chorus") {
        (222, 20, 109)
    } else if same_text(label, "Chorus 1") {
        (205, 18, 99)
    } else if same_text(label, "Chorus 2") {
        (186, 16, 90)
    } else if same_text(label, "Chorus 3") {
        (167, 15, 82)
    } else if same_text(label, "Chorus 4") {
        (148, 14, 74)
    } else if same_text(label, "Bridge") {
        (120, 35, 206)
    } else if same_text(label, "Bridge 1") {
        (108, 30, 186)
    } else if same_text(label, "Bridge 2") {
        (95, 25, 164)
    } else if same_text(label, "Bridge 3") {
        (83, 22, 145)
    } else if same_text(label, "PreChorus") {
        (203, 40, 156)
    } else if same_text(label, "Tag") {
        (214, 56, 45)
    } else if same_text(label, "Intro") {
        (185, 182, 44)
    } else if same_text(label, "Ending") {
        (164, 163, 39)
    } else if same_text(label, "Outro") {
        (144, 143, 35)
    } else if same_text(label, "Interlude") {
        (54, 190, 94)
    } else if same_text(label, "Vamp") {
        (45, 173, 84)
    } else if same_text(label, "Turnaround") {
        (39, 156, 74)
    } else if same_text(label, "Blank") {
        (0, 0, 0)
    } else {
        (95, 95, 95)
    }
}

// ---------------------------------------------------------------------------
// Hex colour codes
// ---------------------------------------------------------------------------

/// `s` without its leading `#` characters.
pub open spec fn strip_hashes(s: Seq<char>) -> Seq<char>
    decreases s.len(),
{
    if s.len() > 0 && s[0] == '#' {
        strip_hashes(s.drop_first())
    } else {
        s
    }
}

/// The number of bytes `c` takes in UTF-8.
pub open spec fn utf8_width(c: char) -> nat {
    if (c as u32) < 0x80 {
        1
    } else if (c as u32) < 0x800 {
        2
    } else if (c as u32) < 0x10000 {
        3
    } else {
        4
    }
}

/// The number of bytes `s` takes in UTF-8.
pub open spec fn utf8_len(s: Seq<char>) -> nat
    decreases s.len(),
{
    if s.len() == 0 {
        0
    } else {
        utf8_len(s.drop_last()) + utf8_width(s.last())
    }
}

/// The value of a hexadecimal digit.
pub open spec fn hex_value(c: char) -> Option<nat> {
    if '0' <= c && c <= '9' {
        Some((c as int - 48) as nat)
    } else if 'a' <= c && c <= 'f' {
        Some((c as int - 87) as nat)
    } else if 'A' <= c && c <= 'F' {
        Some((c as int - 55) as nat)
    } else {
        None
    }
}

/// What `u8::from_str_radix(_, 16)` gives for the two-character text `a b`:
/// an optional leading `+` before one digit, or two digits.
pub open spec fn hex_pair(a: char, b: char) -> Option<u8> {
    if a == '+' {
        match hex_value(b) {
            Some(v) => Some(v as u8),
            None => None,
        }
    } else {
        match (hex_value(a), hex_value(b)) {
            (Some(x), Some(y)) => Some((x * 16 + y) as u8),
            _ => None,
        }
    }
}

/// The number of leading ASCII characters of `s`.
pub open spec fn ascii_prefix(s: Seq<char>) -> nat
    decreases s.len(),
{
    if s.len() > 0 && (s[0] as u32) < 0x80 {
        1 + ascii_prefix(s.drop_first())
    } else {
        0
    }
}

/// The code typed into a hex colour field, as read: trimmed, leading `#`s
/// dropped.
pub open spec fn hex_code(s: Seq<char>) -> Seq<char> {
    strip_hashes(trim(s))
}

/// Whether reading the code `t` would cut a character in two: it is six
/// bytes long, not all ASCII, and a two-byte slice boundary falls inside a
/// character before a pair fails to read.
pub open spec fn hex_slicing_breaks(t: Seq<char>) -> bool {
    let a = ascii_prefix(t);
    &&& utf8_len(t) == 6
    &&& a < t.len()
    &&& {
        ||| a == 0 && utf8_width(t[0]) >= 3
        ||| a == 1
        ||| hex_pair(t[0], t[1]) is Some && (a == 2 && utf8_width(t[2]) >= 3 || a == 3)
    }
}

/// The colour that a hex code field reads as: six hex digits (each pair may
/// also be `+` and one digit), `#`s in front and surrounding whitespace
/// ignored; `None` for anything else.
pub open spec fn hex_color_spec(s: Seq<char>) -> Option<(u8, u8, u8)> {
    let t = hex_code(s);
    if t.len() == 6 && ascii_prefix(t) == 6 {
        match (hex_pair(t[0], t[1]), hex_pair(t[2], t[3]), hex_pair(t[4], t[5])) {
            (Some(r), Some(g), Some(b)) => Some((r, g, b)),
            _ => None,
        }
    } else {
        None
    }
}

fn hex_digit(c: char) -> (r: Option<u8>)
    ensures
        match hex_value(c) {
            Some(v) => r == Some(v as u8) && v < 16,
            None => r is None,
        },
{
    if '0' <= c && c <= '9' {
        Some((c as u32 - 48) as u8)
    } else if 'a' <= c && c <= 'f' {
        Some((c as u32 - 87) as u8)
    } else if 'A' <= c && c <= 'F' {
        Some((c as u32 - 55) as u8)
    } else {
        None
    }
}

fn read_pair(a: char, b: char) -> (r: Option<u8>)
    ensures
        r == hex_pair(a, b),
{
    if a == '+' {
        hex_digit(b)
    } else {
        match (hex_digit(a), hex_digit(b)) {
            (Some(x), Some(y)) => Some(x * 16 + y),
            _ => None,
        }
    }
}

fn width(c: char) -> (w: usize)
    ensures
        w as nat == utf8_width(c),
{
    let u = c as u32;
    if u < 0x80 {
        1
    } else if u < 0x800 {
        2
    } else if u < 0x10000 {
        3
    } else {
        4
    }
}

proof fn lemma_utf8_len_ge_len(s: Seq<char>)
    ensures
        utf8_len(s) >= s.len(),
    decreases s.len(),
{
    if s.len() > 0 {
        lemma_utf8_len_ge_len(s.drop_last());
    }
}

proof fn lemma_ascii_prefix_all(s: Seq<char>)
    ensures
        ascii_prefix(s) <= s.len(),
        ascii_prefix(s) == s.len() ==> utf8_len(s) == s.len(),
        forall|k: int| 0 <= k < ascii_prefix(s) ==> (#[trigger] s[k] as u32) < 0x80,
        ascii_prefix(s) < s.len() ==> (s[ascii_prefix(s) as int] as u32) >= 0x80,
    decreases s.len(),
{
    if s.len() > 0 && (s[0] as u32) < 0x80 {
        let t = s.drop_first();
        lemma_ascii_prefix_all(t);
        assert forall|k: int| 0 <= k < ascii_prefix(s) implies (#[trigger] s[k] as u32) < 0x80 by {
            if k > 0 {
                assert(s[k] == t[k - 1]);
            }
        }
        if ascii_prefix(s) == s.len() {
            lemma_utf8_len_ascii(s);
        }
        if ascii_prefix(s) < s.len() {
            assert(s[ascii_prefix(s) as int] == t[ascii_prefix(t) as int]);
        }
    }
}

proof fn lemma_utf8_len_ascii(s: Seq<char>)
    requires
        forall|k: int| 0 <= k < s.len() ==> (#[trigger] s[k] as u32) < 0x80,
    ensures
        utf8_len(s) == s.len(),
    decreases s.len(),
{
    if s.len() > 0 {
        lemma_utf8_len_ascii(s.drop_last());
    }
}

proof fn lemma_strip_hashes_skip(s: Seq<char>, i: int)
    requires
        0 <= i <= s.len(),
        forall|k: int| 0 <= k < i ==> #[trigger] s[k] == '#',
    ensures
        strip_hashes(s) == strip_hashes(s.skip(i)),
    decreases i,
{
    if i > 0 {
        assert(s.skip(1) =~= s.drop_first());
        lemma_strip_hashes_skip(s.drop_first(), i - 1);
        assert(s.drop_first().skip(i - 1) =~= s.skip(i));
    } else {
        assert(s.skip(0) =~= s);
    }
}

proof fn lemma_ascii_prefix_take(s: Seq<char>, i: int)
    requires
        0 <= i <= s.len(),
        forall|k: int| 0 <= k < i ==> (#[trigger] s[k] as u32) < 0x80,
    ensures
        ascii_prefix(s) >= i,
    decreases i,
{
    if i > 0 {
        lemma_ascii_prefix_take(s.drop_first(), i - 1);
    }
}

/// Whether reading the hex code `hex` slices it cleanly; see
/// [`hex_slicing_breaks`].
pub fn hex_code_slices_cleanly(hex: &str) -> (ok: bool)
    ensures
        ok == !hex_slicing_breaks(hex_code(hex@)),
{
    let t = hex_code_chars(hex);
    let n = t.len();
    let mut total: usize = 0;
    let mut i: usize = 0;
    while i < n && total <= 6
        invariant
            i <= n,
            n == t@.len(),
            total as nat == utf8_len(t@.take(i as int)),
            total <= 10,
        decreases n - i,
    {
        assert(t@.take(i + 1).drop_last() =~= t@.take(i as int));
        total = total + width(t[i]);
        i = i + 1;
    }
    proof {
        if i < n {
            lemma_utf8_len_prefix_le(t@, i as int);
        }
        assert(t@.take(n as int) =~= t@);
    }
    if total != 6 || i < n {
        return true;
    }
    let mut a: usize = 0;
    while a < n && (t[a] as u32) < 0x80
        invariant
            a <= n,
            n == t@.len(),
            forall|k: int| 0 <= k < a ==> (#[trigger] t@[k] as u32) < 0x80,
        decreases n - a,
    {
        a = a + 1;
    }
    proof {
        lemma_ascii_prefix_all(t@);
        lemma_ascii_prefix_take(t@, a as int);
        lemma_utf8_len_ge_len(t@);
    }
    if a >= n {
        return true;
    }
    let breaks = if a <= 1 {
        (a == 0 && width(t[0]) >= 3) || a == 1
    } else {
        match read_pair(t[0], t[1]) {
            Some(_) => (a == 2 && width(t[2]) >= 3) || a == 3,
            None => false,
        }
    };
    !breaks
}

proof fn lemma_utf8_len_prefix_le(s: Seq<char>, i: int)
    requires
        0 <= i <= s.len(),
    ensures
        utf8_len(s.take(i)) <= utf8_len(s),
    decreases s.len() - i,
{
    if i < s.len() {
        lemma_utf8_len_prefix_le(s, i + 1);
        assert(s.take(i + 1).drop_last() =~= s.take(i));
    } else {
        assert(s.take(i) =~= s);
    }
}

/// The characters of the hex code typed as `hex`; see [`hex_code`].
pub fn hex_code_chars(hex: &str) -> (t: Vec<char>)
    ensures
        t@ == hex_code(hex@),
{
    let cs = chars_of(hex);
    let tr = trim_chars(cs.as_slice());
    let n = tr.len();
    let mut i: usize = 0;
    while i < n && tr[i] == '#'
        invariant
            i <= n,
            n == tr@.len(),
            forall|k: int| 0 <= k < i ==> #[trigger] tr@[k] == '#',
        decreases n - i,
    {
        i = i + 1;
    }
    proof {
        lemma_strip_hashes_skip(tr@, i as int);
        let rest = tr@.skip(i as int);
        assert(!(rest.len() > 0 && rest[0] == '#'));
    }
    let mut t: Vec<char> = Vec::new();
    let mut k: usize = i;
    while k < n
        invariant
            i <= k <= n,
            n == tr@.len(),
            t@ == tr@.subrange(i as int, k as int),
        decreases n - k,
    {
        t.push(tr[k]);
        k = k + 1;
    }
    assert(t@ =~= tr@.skip(i as int));
    t
}

/// Reads a hex colour code; see [`hex_color_spec`].
pub fn parse_hex_color(hex: &str) -> (r: Option<(u8, u8, u8)>)
    requires
        !hex_slicing_breaks(hex_code(hex@)),
    ensures
        r == hex_color_spec(hex@),
{
    let t = hex_code_chars(hex);
    if t.len() != 6 {
        return None;
    }
    let mut a: usize = 0;
    while a < 6 && (t[a] as u32) < 0x80
        invariant
            a <= 6,
            t@.len() == 6,
            forall|k: int| 0 <= k < a ==> (#[trigger] t@[k] as u32) < 0x80,
        decreases 6 - a,
    {
        a = a + 1;
    }
    proof {
        lemma_ascii_prefix_all(t@);
        lemma_ascii_prefix_take(t@, a as int);
    }
    if a < 6 {
        return None;
    }
    match (read_pair(t[0], t[1]), read_pair(t[2], t[3]), read_pair(t[4], t[5])) {
        (Some(r), Some(g), Some(b)) => Some((r, g, b)),
        _ => None,
    }
}

} // verus!
