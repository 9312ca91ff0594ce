use vstd::prelude::*;
use unicode_segmentation::UnicodeSegmentation;

verus! {

/// The views of a vector of strings.
pub open spec fn texts(v: Seq<String>) -> Seq<Seq<char>> {
    v.map_values(|s: String| s@)
}

/// Number of characters in a sequence that equal `c`.
pub open spec fn count_char(s: Seq<char>, c: char) -> nat
    decreases s.len(),
{
    if s.len() == 0 {
        0
    } else {
        count_char(s.drop_last(), c) + if s.last() == c { 1nat } else { 0nat }
    }
}

/// The number of line terminators in `s`, as `wc -l` counts them.
pub fn count_newlines(s: &str) -> (r: usize)
    ensures
        r == count_char(s@, '\n'),
{
    let n = s.unicode_len();
    let mut i: usize = 0;
    let mut r: usize = 0;
    while i < n
        invariant
            n == s@.len(),
            i <= n,
            r == count_char(s@.subrange(0, i as int), '\n'),
            r <= i,
        decreases n - i,
    {
        let c = s.get_char(i);
        assert(s@.subrange(0, i + 1).drop_last() == s@.subrange(0, i as int));
        if c == '\n' {
            r = r + 1;
        }
        i = i + 1;
    }
    assert(s@.subrange(0, n as int) == s@);
    r
}

/// The number of characters of `s` before the first `c`, or its length.
pub open spec fn run_before(s: Seq<char>, c: char) -> int
    decreases s.len(),
{
    if s.len() == 0 {
        0
    } else if s[0] == c {
        0
    } else {
        1 + run_before(s.drop_first(), c)
    }
}

proof fn lemma_run_before(s: Seq<char>, c: char, r: int)
    requires
        0 <= r <= s.len(),
        forall|k: int| 0 <= k < r ==> s[k] != c,
        r < s.len() ==> s[r] == c,
    ensures
        run_before(s, c) == r,
    decreases r,
{
    if r > 0 {
        lemma_run_before(s.drop_first(), c, r - 1);
    }
}

/// The number of characters of `s` before the first `c`, or its length.
pub fn find_char(s: &str, c: char) -> (r: usize)
    ensures
        r == run_before(s@, c),
{
    let n = s.unicode_len();
    let mut i: usize = 0;
    while i < n
        invariant
            n == s@.len(),
            i <= n,
            forall|k: int| 0 <= k < i ==> s@[k] != c,
        decreases n - i,
    {
        if s.get_char(i) == c {
            proof {
                lemma_run_before(s@, c, i as int);
            }
            return i;
        }
        i = i + 1;
    }
    proof {
        lemma_run_before(s@, c, i as int);
    }
    i
}

pub proof fn lemma_run_before_bound(s: Seq<char>, c: char)
    ensures
        0 <= run_before(s, c) <= s.len(),
    decreases s.len(),
{
    if s.len() > 0 {
        lemma_run_before_bound(s.drop_first(), c);
    }
}

/// An owned copy of `s`.
pub fn lit(s: &str) -> (r: String)
    ensures
        r@ == s@,
{
    String::from_str(s)
}

/// Whether two strings hold the same characters.
pub fn equal_text(a: &str, b: &str) -> (r: bool)
    ensures
        r == (a@ == b@),
{
    String::from_str(a) == String::from_str(b)
}

/// The extended grapheme clusters of `s`, in order: what a reader sees as
/// single characters.
pub uninterp spec fn clusters_of(s: Seq<char>) -> Seq<Seq<char>>;

/// The width of `s` in user-perceived characters.
pub open spec fn visible_len(s: Seq<char>) -> nat {
    clusters_of(s).len()
}

/// Relies on unicode_segmentation's `graphemes(true)`: it yields the extended
/// grapheme clusters of `s` in order, which together make up `s`, none empty.
#[verifier::external_body]
fn graphemes(s: &str) -> (r: Vec<String>)
    ensures
        texts(r@) == clusters_of(s@),
        texts(r@).flatten() == s@,
        forall|i: int| 0 <= i < r@.len() ==> (#[trigger] r@[i])@.len() > 0,
{
    s.graphemes(true).map(|g| g.to_string()).collect()
}

/// The width of `s` in user-perceived characters.
pub fn visible_width(s: &str) -> (r: usize)
    ensures
        r == visible_len(s@),
{
    graphemes(s).len()
}

/// `s` repeated `n` times.
pub open spec fn repeated(s: Seq<char>, n: nat) -> Seq<char>
    decreases n,
{
    if n == 0 {
        Seq::empty()
    } else {
        repeated(s, (n - 1) as nat) + s
    }
}

/// How many fill units bring `text` up to `width`: none where it is already
/// as wide.
pub open spec fn pad_count(text: Seq<char>, width: nat) -> nat {
    if visible_len(text) <= width {
        (width - visible_len(text)) as nat
    } else {
        0
    }
}

/// `text` padded with `fill` to `width` visible characters, then `border`.
pub open spec fn padded_row(text: Seq<char>, width: nat, fill: Seq<char>, border: Seq<char>) -> Seq<char> {
    text + repeated(fill, pad_count(text, width)) + border
}

/// Pads `text` with `fill` up to `width` visible characters and closes it
/// with `border`; text already as wide is kept whole.
pub fn format_row(text: &str, width: usize, fill: &str, border: &str) -> (r: String)
    ensures
        r@ == padded_row(text@, width as nat, fill@, border@),
{
    let count = visible_width(text);
    let pad: usize = if count <= width {
        width - count
    } else {
        0
    };
    let mut r = String::from_str(text);
    let mut i: usize = 0;
    while i < pad
        invariant
            i <= pad,
            pad == pad_count(text@, width as nat),
            r@ == text@ + repeated(fill@, i as nat),
        decreases pad - i,
    {
        r.append(fill);
        i = i + 1;
        assert(r@ =~= text@ + repeated(fill@, i as nat));
    }
    r.append(border);
    r
}

/// A body row of the report: `text` padded with spaces to 45 visible
/// characters, then a vertical border.
pub fn calc_whitespace(text: String) -> (r: String)
    ensures
        r@ == padded_row(text@, 45, " "@, "\u{2502}"@),
{
    format_row(text.as_str(), 45, " ", "\u{2502}")
}

/// The header row: `text` padded with horizontal rules to 55 visible
/// characters, then a corner.
pub fn calc_with_hostname(text: String) -> (r: String)
    ensures
        r@ == padded_row(text@, 55, "\u{2500}"@, "\u{256e}"@),
{
    format_row(text.as_str(), 55, "\u{2500}", "\u{256e}")
}

/// The display units of a padded row before its border: the clusters of
/// `text`, then one unit per fill.
pub open spec fn row_units(text: Seq<char>, width: nat, fill: Seq<char>) -> Seq<Seq<char>> {
    clusters_of(text) + Seq::new(pad_count(text, width), |i: int| fill)
}

proof fn lemma_flatten_fills(fill: Seq<char>, n: nat)
    ensures
        Seq::new(n, |i: int| fill).flatten() == repeated(fill, n),
    decreases n,
{
    if n > 0 {
        let s = Seq::new(n, |i: int| fill);
        lemma_flatten_fills(fill, (n - 1) as nat);
        assert(s =~= Seq::new((n - 1) as nat, |i: int| fill).push(fill));
        Seq::new((n - 1) as nat, |i: int| fill).lemma_flatten_push(fill);
    } else {
        assert(Seq::new(n, |i: int| fill) =~= Seq::<Seq<char>>::empty());
    }
}

/// A row is made of exactly `width` display units, the text's clusters and
/// one per fill, followed by its border, whenever the text is at most `width`
/// wide.
pub proof fn lemma_row_width(text: Seq<char>, width: nat, fill: Seq<char>, border: Seq<char>)
    requires
        visible_len(text) <= width,
        clusters_of(text).flatten() == text,
    ensures
        row_units(text, width, fill).len() == width,
        padded_row(text, width, fill, border) == row_units(text, width, fill).flatten() + border,
{
    let fills = Seq::new(pad_count(text, width), |i: int| fill);
    lemma_flatten_fills(fill, pad_count(text, width));
    vstd::seq_lib::lemma_flatten_concat(clusters_of(text), fills);
}

/// `s` without the run of `c` at its end.
pub open spec fn trim_end(s: Seq<char>, c: char) -> Seq<char>
    decreases s.len(),
{
    if s.len() > 0 && s.last() == c {
        trim_end(s.drop_last(), c)
    } else {
        s
    }
}

/// `s` without the run of `c` at its start.
pub open spec fn trim_start(s: Seq<char>, c: char) -> Seq<char>
    decreases s.len(),
{
    if s.len() > 0 && s[0] == c {
        trim_start(s.drop_first(), c)
    } else {
        s
    }
}

proof fn lemma_trim_end(s: Seq<char>, c: char, k: int)
    requires
        0 <= k <= s.len(),
        forall|j: int| k <= j < s.len() ==> s[j] == c,
        k > 0 ==> s[k - 1] != c,
    ensures
        trim_end(s, c) == s.subrange(0, k),
    decreases s.len(),
{
    if s.len() > k {
        lemma_trim_end(s.drop_last(), c, k);
        assert(s.drop_last().subrange(0, k) =~= s.subrange(0, k));
    } else {
        assert(s.subrange(0, k) =~= s);
    }
}

proof fn lemma_trim_start(s: Seq<char>, c: char, k: int)
    requires
        0 <= k <= s.len(),
        forall|j: int| 0 <= j < k ==> s[j] == c,
        k < s.len() ==> s[k] != c,
    ensures
        trim_start(s, c) == s.subrange(k, s.len() as int),
    decreases k,
{
    if k > 0 {
        lemma_trim_start(s.drop_first(), c, k - 1);
        assert(s.drop_first().subrange(k - 1, s.len() - 1) =~= s.subrange(k, s.len() as int));
    } else {
        assert(s.subrange(0, s.len() as int) =~= s);
    }
}

/// `s` without the run of `c` at its end.
pub fn trim_end_char(s: &str, c: char) -> (r: &str)
    ensures
        r@ == trim_end(s@, c),
{
    let n = s.unicode_len();
    let mut k: usize = n;
    while k > 0 && s.get_char(k - 1) == c
        invariant
            n == s@.len(),
            k <= n,
            forall|j: int| k <= j < n ==> s@[j] == c,
        decreases k,
    {
        k = k - 1;
    }
    proof {
        lemma_trim_end(s@, c, k as int);
    }
    s.substring_char(0, k)
}

/// `s` without the run of `c` at its start.
pub fn trim_start_char(s: &str, c: char) -> (r: &str)
    ensures
        r@ == trim_start(s@, c),
{
    let n = s.unicode_len();
    let mut k: usize = 0;
    while k < n && s.get_char(k) == c
        invariant
            n == s@.len(),
            k <= n,
            forall|j: int| 0 <= j < k ==> s@[j] == c,
        decreases n - k,
    {
        k = k + 1;
    }
    proof {
        lemma_trim_start(s@, c, k as int);
    }
    s.substring_char(k, n)
}

/// The text that fits a row: `t` itself where it is at most 41 visible
/// characters wide, else its first 37 visible characters and `...`.
pub open spec fn shortened(t: Seq<char>) -> Seq<char> {
    if visible_len(t) > 41 {
        clusters_of(t).take(37).flatten() + "..."@
    } else {
        t
    }
}

/// Shortens `t` to fit a row, cutting only between visible characters.
pub fn shorten(t: &str) -> (r: String)
    ensures
        r@ == shortened(t@),
{
    let parts = graphemes(t);
    if parts.len() > 41 {
        let mut r = String::new();
        let mut i: usize = 0;
        while i < 37
            invariant
                i <= 37 < parts@.len(),
                texts(parts@) == clusters_of(t@),
                r@ == texts(parts@).take(i as int).flatten(),
            decreases 37 - i,
        {
            r.append(parts[i].as_str());
            proof {
                assert(texts(parts@).take(i + 1) =~= texts(parts@).take(i as int).push(parts@[i as int]@));
                texts(parts@).take(i as int).lemma_flatten_push(parts@[i as int]@);
            }
            i = i + 1;
        }
        r.append("...");
        r
    } else {
        String::from_str(t)
    }
}

/// Text at most 41 visible characters wide is kept as it is; wider text
/// becomes exactly 37 of its whole visible characters followed by the three
/// dots, 40 display units in all.
pub proof fn lemma_shortened_width(t: Seq<char>)
    ensures
        visible_len(t) <= 41 ==> shortened(t) == t,
        visible_len(t) > 41 ==> {
            let units = clusters_of(t).take(37) + seq!["."@, "."@, "."@];
            &&& units.len() == 40
            &&& shortened(t) == units.flatten()
        },
{
    if visible_len(t) > 41 {
        let head = clusters_of(t).take(37);
        let dots = seq!["."@, "."@, "."@];
        vstd::seq_lib::lemma_flatten_concat(head, dots);
        reveal_with_fuel(Seq::flatten, 4);
        assert(dots.flatten() =~= "..."@) by {
            reveal_strlit("...");
            reveal_strlit(".");
        }
    }
}

/// An operating-system release as `lsb_release -s -d` prints it, without its
/// quotes and line break.
pub open spec fn release_clean(raw: Seq<char>) -> Seq<char> {
    trim_end(trim_end(trim_end(trim_start(raw, '"'), '"'), '\n'), '"')
}

/// The release text shown in the report.
pub fn get_release(raw: &str) -> (r: String)
    ensures
        r@ == shortened(release_clean(raw@)),
{
    let b = trim_start_char(raw, '"');
    let c = trim_end_char(b, '"');
    let d = trim_end_char(c, '\n');
    let e = trim_end_char(d, '"');
    shorten(e)
}

/// The kernel text shown in the report, from what `uname -sr` prints.
pub fn get_kernel(raw: &str) -> (r: String)
    ensures
        r@ == shortened(trim_end(raw@, '\n')),
{
    shorten(trim_end_char(raw, '\n'))
}

/// Uppercase form of a character.
pub uninterp spec fn upper_of(c: char) -> Seq<char>;

/// Relies on `char::to_uppercase`: the uppercase mapping of `c`, which depends
/// on `c` alone.
#[verifier::external_body]
fn char_upper(c: char) -> (r: String)
    ensures
        r@ == upper_of(c),
{
    c.to_uppercase().collect::<String>()
}

/// `s` with its first character in upper case.
pub open spec fn capitalized(s: Seq<char>) -> Seq<char> {
    if s.len() == 0 {
        s
    } else {
        upper_of(s[0]) + s.drop_first()
    }
}

/// `s` with its first character in upper case.
pub fn upper_first(s: String) -> (r: String)
    ensures
        r@ == capitalized(s@),
{
    let n = s.as_str().unicode_len();
    if n == 0 {
        String::new()
    } else {
        let head = char_upper(s.as_str().get_char(0));
        let rest = s.as_str().substring_char(1, n);
        let r = head.concat(rest);
        assert(r@ =~= capitalized(s@));
        r
    }
}

} // verus!
