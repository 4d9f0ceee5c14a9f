use vstd::prelude::*;

verus! {

/// The result of replacing, from left to right, every non-overlapping
/// occurrence of `pat` in `s` by `rep`; the inserted text is not scanned
/// again. An empty pattern leaves `s` unchanged.
pub open spec fn replace_spec(s: Seq<char>, pat: Seq<char>, rep: Seq<char>) -> Seq<char>
    decreases s.len(),
{
    if s.len() == 0 || pat.len() == 0 {
        s
    } else if pat.len() <= s.len() && s.take(pat.len() as int) == pat {
        rep + replace_spec(s.skip(pat.len() as int), pat, rep)
    } else {
        seq![s[0]] + replace_spec(s.skip(1), pat, rep)
    }
}

/// `String::push`: appends one character at the end of the string.
#[verifier::external_body]
pub(crate) fn push_char(s: &mut String, c: char)
    ensures
        final(s)@ == old(s)@.push(c),
{
    s.push(c);
}

/// The characters of `s`, in order.
pub(crate) fn chars_of(s: &str) -> (v: Vec<char>)
    ensures
        v@ == s@,
{
    let n = s.unicode_len();
    let mut v: Vec<char> = Vec::new();
    let mut i: usize = 0;
    while i < n
        invariant
            n == s@.len(),
            i <= n,
            v@ == s@.take(i as int),
        decreases n - i,
    {
        let c = s.get_char(i);
        v.push(c);
        i = i + 1;
        assert(v@ =~= s@.take(i as int));
    }
    assert(v@ =~= s@);
    v
}

/// Whether `p` occurs in `v` at position `i`.
fn occurs_at(v: &Vec<char>, i: usize, p: &Vec<char>) -> (b: bool)
    requires
        i <= v.len(),
    ensures
        b == (p.len() <= v.len() - i && v@.subrange(i as int, i + p.len()) == p@),
{
    if p.len() > v.len() - i {
        return false;
    }
    let mut j: usize = 0;
    while j < p.len()
        invariant
            i <= v.len(),
            p.len() <= v.len() - i,
            j <= p.len(),
            forall|k: int| 0 <= k < j ==> v@[i + k] == p@[k],
        decreases p.len() - j,
    {
        if v[i + j] != p[j] {
            assert(v@.subrange(i as int, i + p.len())[j as int] != p@[j as int]);
            return false;
        }
        j = j + 1;
    }
    assert(v@.subrange(i as int, i + p.len()) =~= p@);
    true
}

/// Replaces every non-overlapping occurrence of `pat` in `s`, scanning from
/// the left, by `rep` (what `str::replace` does for a non-empty pattern).
pub fn replace_all(s: &str, pat: &str, rep: &str) -> (res: String)
    requires
        pat@.len() > 0,
    ensures
        res@ == replace_spec(s@, pat@, rep@),
{
    let sv = chars_of(s);
    let pv = chars_of(pat);
    let mut out = String::new();
    let mut i: usize = 0;
    assert(s@.skip(0) =~= s@);
    while i < sv.len()
        invariant
            sv@ == s@,
            pv@ == pat@,
            pv.len() > 0,
            i <= sv.len(),
            replace_spec(s@, pat@, rep@) == out@ + replace_spec(s@.skip(i as int), pat@, rep@),
        decreases sv.len() - i,
    {
        let ghost rest = s@.skip(i as int);
        if occurs_at(&sv, i, &pv) {
            assert(rest.take(pat@.len() as int) =~= s@.subrange(i as int, i + pat@.len()));
            assert(rest.skip(pat@.len() as int) =~= s@.skip(i + pat@.len()));
            out.append(rep);
            i = i + pv.len();
        } else {
            proof {
                if pat@.len() <= rest.len() {
                    assert(rest.take(pat@.len() as int) =~= s@.subrange(i as int, i + pat@.len()));
                }
            }
            assert(rest.skip(1) =~= s@.skip(i + 1));
            push_char(&mut out, sv[i]);
            i = i + 1;
        }
    }
    assert(s@.skip(i as int) =~= Seq::<char>::empty());
    out
}

/// The decimal digit `d` (0 to 9) as a character.
pub open spec fn digit_char(d: nat) -> char {
    (d + 48) as char
}

/// The decimal digits of `n`, most significant first, with no leading zero.
pub open spec fn nat_text(n: nat) -> Seq<char>
    decreases n,
{
    if n < 10 {
        seq![digit_char(n)]
    } else {
        nat_text(n / 10).push(digit_char(n % 10))
    }
}

/// `i` written in decimal, with a leading `-` when it is negative (what
/// `Display` prints for Rust's integer types).
pub open spec fn int_text(i: int) -> Seq<char> {
    if i < 0 {
        seq!['-'] + nat_text((-i) as nat)
    } else {
        nat_text(i as nat)
    }
}

/// `s` right-aligned in a field of `width` characters: copies of `fill` are
/// put in front of it when it is shorter.
pub open spec fn pad_with(s: Seq<char>, width: nat, fill: char) -> Seq<char> {
    if s.len() >= width {
        s
    } else {
        Seq::new((width - s.len()) as nat, |k: int| fill) + s
    }
}

/// `s` right-aligned in a field of `width` characters with spaces (what the
/// `{:>width}` format does).
pub open spec fn pad_left(s: Seq<char>, width: nat) -> Seq<char> {
    pad_with(s, width, ' ')
}

/// `n` in decimal with zeros in front up to `width` digits (what the
/// `{:0width}` format does).
pub open spec fn zero_padded(n: nat, width: nat) -> Seq<char> {
    pad_with(nat_text(n), width, '0')
}

fn digit(d: u64) -> (c: char)
    requires
        d < 10,
    ensures
        c == digit_char(d as nat),
{
    match d {
        0 => '0',
        1 => '1',
        2 => '2',
        3 => '3',
        4 => '4',
        5 => '5',
        6 => '6',
        7 => '7',
        8 => '8',
        _ => '9',
    }
}

/// Appends the decimal digits of `n` to `out`.
fn push_u64(out: &mut String, n: u64)
    ensures
        final(out)@ == old(out)@ + nat_text(n as nat),
    decreases n,
{
    if n >= 10 {
        push_u64(out, n / 10);
    }
    let ghost mid = out@;
    push_char(out, digit(n % 10));
    proof {
        if n >= 10 {
            assert(nat_text(n as nat) == nat_text((n / 10) as nat).push(digit_char((n % 10) as nat)));
        }
    }
    assert(out@ =~= old(out)@ + nat_text(n as nat));
}

/// Appends `n` in decimal to `out`.
pub(crate) fn push_i64(out: &mut String, n: i64)
    ensures
        final(out)@ == old(out)@ + int_text(n as int),
{
    if n < 0 {
        push_char(out, '-');
        let m: u64 = (-(n as i128)) as u64;
        push_u64(out, m);
        assert(out@ =~= old(out)@ + int_text(n as int));
    } else {
        push_u64(out, n as u64);
    }
}

/// `n` written in decimal.
pub fn i64_text(n: i64) -> (res: String)
    ensures
        res@ == int_text(n as int),
{
    let mut s = String::new();
    push_i64(&mut s, n);
    assert(s@ =~= int_text(n as int));
    s
}

/// Appends `s` to `out`, preceded by as many spaces as bring it to `width`
/// characters.
pub(crate) fn push_padded(out: &mut String, s: &str, width: usize)
    ensures
        final(out)@ == old(out)@ + pad_left(s@, width as nat),
{
    let n = s.unicode_len();
    if n < width {
        let mut k: usize = 0;
        while k < width - n
            invariant
                n < width,
                k <= width - n,
                out@ == old(out)@ + Seq::new(k as nat, |j: int| ' '),
            decreases width - n - k,
        {
            push_char(out, ' ');
            k = k + 1;
            assert(out@ =~= old(out)@ + Seq::new(k as nat, |j: int| ' '));
        }
    }
    out.append(s);
    assert(out@ =~= old(out)@ + pad_left(s@, width as nat));
}

/// A character other than the first of the pattern is copied and scanning
/// goes on after it.
pub proof fn lemma_replace_other_first(c: char, s: Seq<char>, pat: Seq<char>, rep: Seq<char>)
    requires
        pat.len() > 0,
        c != pat[0],
    ensures
        replace_spec(seq![c] + s, pat, rep) == seq![c] + replace_spec(s, pat, rep),
{
    let t = seq![c] + s;
    assert(t[0] == c);
    if pat.len() <= t.len() {
        assert(t.take(pat.len() as int)[0] == c);
    }
    assert(t.skip(1) =~= s);
}

/// A prefix without the first character of the pattern is copied unchanged.
pub proof fn lemma_replace_skip_prefix(p: Seq<char>, t: Seq<char>, pat: Seq<char>, rep: Seq<char>)
    requires
        pat.len() > 0,
        forall|i: int| 0 <= i < p.len() ==> p[i] != pat[0],
    ensures
        replace_spec(p + t, pat, rep) == p + replace_spec(t, pat, rep),
    decreases p.len(),
{
    if p.len() == 0 {
        assert(p + t =~= t);
    } else {
        let rest = p.skip(1);
        assert(p + t =~= seq![p[0]] + (rest + t));
        lemma_replace_other_first(p[0], rest + t, pat, rep);
        lemma_replace_skip_prefix(rest, t, pat, rep);
        assert(p =~= seq![p[0]] + rest);
        assert(seq![p[0]] + (rest + replace_spec(t, pat, rep)) =~= p + replace_spec(t, pat, rep));
    }
}

/// Text without the first character of the pattern is left unchanged.
pub proof fn lemma_replace_absent(s: Seq<char>, pat: Seq<char>, rep: Seq<char>)
    requires
        pat.len() > 0,
        forall|i: int| 0 <= i < s.len() ==> s[i] != pat[0],
    ensures
        replace_spec(s, pat, rep) == s,
{
    lemma_replace_skip_prefix(s, Seq::empty(), pat, rep);
    assert(s + Seq::<char>::empty() =~= s);
}

/// An occurrence of the pattern at the start is replaced and scanning goes
/// on after it.
pub proof fn lemma_replace_leading_match(t: Seq<char>, pat: Seq<char>, rep: Seq<char>)
    requires
        pat.len() > 0,
    ensures
        replace_spec(pat + t, pat, rep) == rep + replace_spec(t, pat, rep),
{
    let s = pat + t;
    assert(s.take(pat.len() as int) =~= pat);
    assert(s.skip(pat.len() as int) =~= t);
}

/// Replacing in a concatenation replaces in each part, when the second part
/// starts with a character that the pattern does not hold, so that no
/// occurrence straddles the two.
pub proof fn lemma_replace_concat(a: Seq<char>, b: Seq<char>, pat: Seq<char>, rep: Seq<char>)
    requires
        pat.len() > 0,
        b.len() > 0,
        !pat.contains(b[0]),
    ensures
        replace_spec(a + b, pat, rep) == replace_spec(a, pat, rep) + replace_spec(b, pat, rep),
    decreases a.len(),
{
    let s = a + b;
    let m = pat.len() as int;
    if a.len() == 0 {
        assert(s =~= b);
        assert(replace_spec(a, pat, rep) == a);
        assert(Seq::<char>::empty() + replace_spec(b, pat, rep) =~= replace_spec(b, pat, rep));
    } else if m <= s.len() && s.take(m) == pat {
        if m > a.len() {
            assert(s.take(m)[a.len() as int] == b[0]);
            assert(pat[a.len() as int] == b[0]);
            assert(false);
        }
        assert(a.take(m) =~= s.take(m));
        assert(s.skip(m) =~= a.skip(m) + b);
        lemma_replace_concat(a.skip(m), b, pat, rep);
        assert(rep + (replace_spec(a.skip(m), pat, rep) + replace_spec(b, pat, rep))
            =~= (rep + replace_spec(a.skip(m), pat, rep)) + replace_spec(b, pat, rep));
    } else {
        assert(s[0] == a[0]);
        if m <= a.len() {
            assert(a.take(m) =~= s.take(m));
        }
        assert(s.skip(1) =~= a.skip(1) + b);
        lemma_replace_concat(a.skip(1), b, pat, rep);
        assert(seq![a[0]] + (replace_spec(a.skip(1), pat, rep) + replace_spec(b, pat, rep))
            =~= (seq![a[0]] + replace_spec(a.skip(1), pat, rep)) + replace_spec(b, pat, rep));
    }
}

/// The comma-separated fields of `s`, in order: `s` cut at every comma, the
/// commas dropped. Text without a comma is one field; empty text is one
/// empty field.
pub open spec fn fields(s: Seq<char>) -> Seq<Seq<char>>
    decreases s.len(),
{
    if s.len() == 0 {
        seq![Seq::<char>::empty()]
    } else {
        let rest = fields(s.drop_last());
        if s.last() == ',' {
            rest.push(Seq::<char>::empty())
        } else {
            rest.update(rest.len() - 1, rest.last().push(s.last()))
        }
    }
}

/// The parts joined with a comma between each two.
pub open spec fn join_fields(parts: Seq<Seq<char>>) -> Seq<char>
    decreases parts.len(),
{
    if parts.len() <= 1 {
        if parts.len() == 0 {
            Seq::<char>::empty()
        } else {
            parts[0]
        }
    } else {
        join_fields(parts.drop_last()) + seq![','] + parts.last()
    }
}

/// Text has at least one field.
pub proof fn lemma_fields_nonempty(s: Seq<char>)
    ensures
        fields(s).len() >= 1,
    decreases s.len(),
{
    if s.len() > 0 {
        lemma_fields_nonempty(s.drop_last());
    }
}

/// Text without a comma is a single field.
pub proof fn lemma_fields_no_comma(s: Seq<char>)
    requires
        !s.contains(','),
    ensures
        fields(s) == seq![s],
    decreases s.len(),
{
    if s.len() > 0 {
        let p = s.drop_last();
        assert(!p.contains(',')) by {
            if p.contains(',') {
                let k = choose|k: int| 0 <= k < p.len() && p[k] == ',';
                assert(s[k] == ',');
            }
        }
        lemma_fields_no_comma(p);
        assert(s.last() != ',') by {
            assert(s[s.len() - 1] == s.last());
        }
        assert(p.push(s.last()) =~= s);
        assert(seq![p].update(0, p.push(s.last())) =~= seq![s]);
    } else {
        assert(s =~= Seq::<char>::empty());
    }
}

/// The fields of two texts joined by a comma are those of the first followed
/// by those of the second.
pub proof fn lemma_fields_concat(a: Seq<char>, b: Seq<char>)
    ensures
        fields(a + seq![','] + b) == fields(a) + fields(b),
    decreases b.len(),
{
    let s = a + seq![','] + b;
    if b.len() == 0 {
        assert(s.drop_last() =~= a);
        assert(s.last() == ',');
        assert(fields(b) == seq![Seq::<char>::empty()]);
        assert(fields(a).push(Seq::<char>::empty()) =~= fields(a) + seq![Seq::<char>::empty()]);
    } else {
        let b0 = b.drop_last();
        assert(s.drop_last() =~= a + seq![','] + b0);
        assert(s.last() == b.last());
        lemma_fields_concat(a, b0);
        lemma_fields_nonempty(b0);
        lemma_fields_nonempty(a);
        let fa = fields(a);
        let fb0 = fields(b0);
        if b.last() == ',' {
            assert((fa + fb0).push(Seq::<char>::empty()) =~= fa + fb0.push(Seq::<char>::empty()));
        } else {
            let r = fa + fb0;
            assert(r.last() == fb0.last());
            assert(r.update(r.len() - 1, r.last().push(b.last())) =~= fa + fb0.update(
                fb0.len() - 1,
                fb0.last().push(b.last()),
            ));
        }
    }
}

/// Parts without commas, joined by commas, split back into the same parts.
pub proof fn lemma_fields_join(parts: Seq<Seq<char>>)
    requires
        parts.len() >= 1,
        forall|i: int| 0 <= i < parts.len() ==> !(#[trigger] parts[i]).contains(','),
    ensures
        fields(join_fields(parts)) == parts,
    decreases parts.len(),
{
    if parts.len() == 1 {
        lemma_fields_no_comma(parts[0]);
        assert(seq![parts[0]] =~= parts);
    } else {
        let init = parts.drop_last();
        assert forall|i: int| 0 <= i < init.len() implies !(#[trigger] init[i]).contains(',') by {
            assert(init[i] == parts[i]);
        }
        lemma_fields_join(init);
        assert(!parts[parts.len() - 1].contains(','));
        lemma_fields_no_comma(parts.last());
        lemma_fields_concat(join_fields(init), parts.last());
        assert(init + seq![parts.last()] =~= parts);
    }
}

/// The digits of a number hold no comma.
pub proof fn lemma_nat_text_no_comma(n: nat)
    ensures
        !nat_text(n).contains(','),
    decreases n,
{
    if n >= 10 {
        lemma_nat_text_no_comma(n / 10);
        let p = nat_text(n / 10);
        let s = p.push(digit_char(n % 10));
        assert(digit_char(n % 10) != ',');
        if s.contains(',') {
            let k = choose|k: int| 0 <= k < s.len() && s[k] == ',';
            if k < p.len() {
                assert(p[k] == ',');
            }
        }
    } else {
        assert(digit_char(n) != ',');
        assert(nat_text(n) =~= seq![digit_char(n)]);
    }
}

/// Joining texts without a comma gives text without a comma.
pub proof fn lemma_concat_no_comma(a: Seq<char>, b: Seq<char>)
    requires
        !a.contains(','),
        !b.contains(','),
    ensures
        !(a + b).contains(','),
{
    if (a + b).contains(',') {
        let k = choose|k: int| 0 <= k < (a + b).len() && (a + b)[k] == ',';
        if k < a.len() {
            assert(a[k] == ',');
        } else {
            assert(b[k - a.len()] == ',');
        }
    }
}

/// Padding with a character other than a comma adds no comma.
pub proof fn lemma_pad_no_comma(s: Seq<char>, width: nat, fill: char)
    requires
        !s.contains(','),
        fill != ',',
    ensures
        !pad_with(s, width, fill).contains(','),
{
    if s.len() < width {
        let f = Seq::new((width - s.len()) as nat, |k: int| fill);
        assert(!f.contains(',')) by {
            if f.contains(',') {
                let k = choose|k: int| 0 <= k < f.len() && f[k] == ',';
            }
        }
        lemma_concat_no_comma(f, s);
    }
}

/// An integer in decimal holds no comma.
pub proof fn lemma_int_text_no_comma(i: int)
    ensures
        !int_text(i).contains(','),
{
    if i < 0 {
        lemma_nat_text_no_comma((-i) as nat);
        assert(!seq!['-'].contains(',')) by {
            if seq!['-'].contains(',') {
                let k = choose|k: int| 0 <= k < 1 && seq!['-'][k] == ',';
            }
        }
        lemma_concat_no_comma(seq!['-'], nat_text((-i) as nat));
    } else {
        lemma_nat_text_no_comma(i as nat);
    }
}

/// A single character other than a comma holds no comma.
pub proof fn lemma_char_no_comma(c: char)
    requires
        c != ',',
    ensures
        !seq![c].contains(','),
{
    if seq![c].contains(',') {
        let k = choose|k: int| 0 <= k < 1 && seq![c][k] == ',';
    }
}

/// A piece of text without a comma holds no comma.
pub proof fn lemma_subrange_no_comma(s: Seq<char>, i: int, j: int)
    requires
        !s.contains(','),
        0 <= i <= j <= s.len(),
    ensures
        !s.subrange(i, j).contains(','),
{
    if s.subrange(i, j).contains(',') {
        let k = choose|k: int| 0 <= k < j - i && s.subrange(i, j)[k] == ',';
        assert(s[i + k] == ',');
    }
}

/// A number zero-padded holds no comma.
pub proof fn lemma_zero_padded_no_comma(n: nat, width: nat)
    ensures
        !zero_padded(n, width).contains(','),
{
    lemma_nat_text_no_comma(n);
    lemma_pad_no_comma(nat_text(n), width, '0');
}

} // verus!
