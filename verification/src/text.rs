//! Character-level text operations on which the launcher builds its paths,
//! arguments and messages.
use vstd::prelude::*;

verus! {

/// The characters of `s`, in order.
pub fn chars_of(s: &str) -> (r: Vec<char>)
    ensures
        r@ == s@,
{
    let mut r: Vec<char> = Vec::new();
    for c in it: s.chars()
        invariant
            r@ == it.seq().take(it.index() as int),
            it.seq() == s@,
    {
        r.push(c);
    }
    r
}

/// Calls `String::push`: the string afterwards is the old one with `c` appended.
#[verifier::external_body]
fn push_char(s: &mut String, c: char)
    ensures
        final(s)@ == old(s)@.push(c),
{
    s.push(c);
}

/// The string whose characters are `v`.
pub fn string_from_chars(v: &Vec<char>) -> (r: String)
    ensures
        r@ == v@,
{
    let mut r = String::new();
    let n = v.len();
    for i in 0..n
        invariant
            n == v@.len(),
            r@ == v@.take(i as int),
    {
        push_char(&mut r, v[i]);
        assert(v@.take(i + 1) == v@.take(i as int).push(v@[i as int]));
    }
    assert(v@.take(n as int) == v@);
    r
}

/// `s` with every non-overlapping occurrence of `pat`, scanned from the left,
/// replaced by `rep`; an empty pattern leaves `s` as it is.
pub open spec fn replaced(s: Seq<char>, pat: Seq<char>, rep: Seq<char>) -> Seq<char>
    decreases s.len(),
{
    if pat.len() == 0 || s.len() < pat.len() {
        s
    } else if s.take(pat.len() as int) == pat {
        rep + replaced(s.skip(pat.len() as int), pat, rep)
    } else {
        seq![s[0]] + replaced(s.skip(1), pat, rep)
    }
}

/// A pattern that starts with a character that `s` lacks is never replaced.
pub proof fn lemma_replaced_absent(s: Seq<char>, pat: Seq<char>, rep: Seq<char>)
    requires
        pat.len() > 0,
        forall|i: int| 0 <= i < s.len() ==> s[i] != pat[0],
    ensures
        replaced(s, pat, rep) == s,
    decreases s.len(),
{
    if s.len() >= pat.len() {
        assert(s.take(pat.len() as int)[0] != pat[0]);
        lemma_replaced_absent(s.skip(1), pat, rep);
        assert(seq![s[0]] + s.skip(1) =~= s);
    }
}

/// Whether `c` does not occur in `s`.
pub open spec fn lacks(s: Seq<char>, c: char) -> bool {
    forall|i: int| 0 <= i < s.len() ==> s[i] != c
}

/// A text that starts differently from `pat` at some position is not
/// prefixed by it.
pub proof fn lemma_not_prefix_at(pat: Seq<char>, t: Seq<char>, i: int)
    requires
        0 <= i < pat.len(),
        i < t.len(),
        t[i] != pat[i],
    ensures
        !is_prefix(pat, t),
{
    if pat.len() <= t.len() {
        assert(t.take(pat.len() as int)[i] != pat[i]);
    }
}

/// Where the only possible start of `pat` in `p + t` is the start of `t`, and
/// `t` does not start with `pat`, nothing is replaced.
pub proof fn lemma_replaced_no_match(p: Seq<char>, t: Seq<char>, pat: Seq<char>, rep: Seq<char>)
    requires
        pat.len() > 0,
        lacks(p, pat[0]),
        t.len() > 0,
        lacks(t.skip(1), pat[0]),
        !is_prefix(pat, t),
    ensures
        replaced(p + t, pat, rep) == p + t,
    decreases p.len(),
{
    let s = p + t;
    if p.len() == 0 {
        assert(s =~= t);
        if t.len() >= pat.len() {
            assert(t.take(pat.len() as int) != pat);
            lemma_replaced_absent(t.skip(1), pat, rep);
            assert(seq![t[0]] + t.skip(1) =~= t);
        }
    } else if s.len() >= pat.len() {
        assert(s.take(pat.len() as int)[0] != pat[0]);
        assert(s.skip(1) =~= p.skip(1) + t);
        lemma_replaced_no_match(p.skip(1), t, pat, rep);
        assert(seq![s[0]] + s.skip(1) =~= s);
    }
}

/// The one occurrence of `pat` in `p + pat + q` is replaced.
pub proof fn lemma_replaced_hit(p: Seq<char>, pat: Seq<char>, q: Seq<char>, rep: Seq<char>)
    requires
        pat.len() > 0,
        lacks(p, pat[0]),
        lacks(q, pat[0]),
    ensures
        replaced(p + pat + q, pat, rep) == p + rep + q,
    decreases p.len(),
{
    let s = p + pat + q;
    if p.len() == 0 {
        assert(s =~= pat + q);
        assert(s.take(pat.len() as int) =~= pat);
        assert(s.skip(pat.len() as int) =~= q);
        lemma_replaced_absent(q, pat, rep);
        assert(p + rep + q =~= rep + q);
    } else {
        assert(s.take(pat.len() as int)[0] != pat[0]);
        assert(s.skip(1) =~= p.skip(1) + pat + q);
        lemma_replaced_hit(p.skip(1), pat, q, rep);
        assert(seq![s[0]] + (p.skip(1) + rep + q) =~= p + rep + q);
    }
}

/// Whether `pat` occurs in `s` at position `i`.
fn occurs_at(s: &Vec<char>, i: usize, pat: &Vec<char>) -> (r: bool)
    requires
        i + pat@.len() <= s@.len(),
    ensures
        r == (s@.skip(i as int).take(pat@.len() as int) == pat@),
{
    let n = pat.len();
    let sl = s.len();
    for k in 0..n
        invariant
            n == pat@.len(),
            sl == s@.len(),
            i + n <= s@.len(),
            forall|j: int| 0 <= j < k ==> s@[i + j] == pat@[j],
    {
        if s[i + k] != pat[k] {
            assert(s@.skip(i as int).take(n as int)[k as int] != pat@[k as int]);
            return false;
        }
    }
    assert(s@.skip(i as int).take(n as int) =~= pat@);
    true
}

/// `s` with every occurrence of `pat` replaced by `rep`, as `str::replace` does.
pub fn replace_all(s: &str, pat: &str, rep: &str) -> (r: String)
    requires
        pat@.len() > 0,
    ensures
        r@ == replaced(s@, pat@, rep@),
{
    let sv = chars_of(s);
    let pv = chars_of(pat);
    let rv = chars_of(rep);
    let n = sv.len();
    let m = pv.len();
    let mut out: Vec<char> = Vec::new();
    let mut i: usize = 0;
    assert(sv@.skip(0) == sv@);
    while i < n
        invariant
            n == sv@.len(),
            m == pv@.len(),
            m > 0,
            i <= n,
            replaced(sv@, pv@, rv@) == out@ + replaced(sv@.skip(i as int), pv@, rv@),
        decreases n - i,
    {
        let ghost rest = sv@.skip(i as int);
        if n - i >= m && occurs_at(&sv, i, &pv) {
            let ghost before = out@;
            let mut k: usize = 0;
            while k < rv.len()
                invariant
                    k <= rv@.len(),
                    out@ == before + rv@.take(k as int),
                decreases rv@.len() - k,
            {
                out.push(rv[k]);
                assert(rv@.take(k + 1) == rv@.take(k as int).push(rv@[k as int]));
                k = k + 1;
            }
            assert(rv@.take(rv@.len() as int) == rv@);
            assert(rest.skip(m as int) == sv@.skip(i + m));
            i = i + m;
        } else {
            out.push(sv[i]);
            assert(rest.skip(1) == sv@.skip(i + 1));
            assert(rest[0] == sv@[i as int]);
            i = i + 1;
        }
    }
    assert(sv@.skip(n as int) =~= Seq::<char>::empty());
    string_from_chars(&out)
}

/// Whether `p` is a prefix of `s`.
pub open spec fn is_prefix(p: Seq<char>, s: Seq<char>) -> bool {
    p.len() <= s.len() && s.take(p.len() as int) == p
}

/// Whether `s` starts with `p`, as `str::starts_with` with a string pattern.
pub fn starts_with(s: &str, p: &str) -> (r: bool)
    ensures
        r == is_prefix(p@, s@),
{
    let sv = chars_of(s);
    let pv = chars_of(p);
    if pv.len() > sv.len() {
        false
    } else {
        assert(sv@.skip(0) == sv@);
        occurs_at(&sv, 0, &pv)
    }
}

/// The views of a sequence of strings.
pub open spec fn views(v: Seq<String>) -> Seq<Seq<char>> {
    v.map_values(|s: String| s@)
}

/// The parts joined with `sep` between each two neighbours, as `[String]::join`.
pub open spec fn joined(parts: Seq<Seq<char>>, sep: Seq<char>) -> Seq<char>
    decreases parts.len(),
{
    if parts.len() == 0 {
        Seq::empty()
    } else if parts.len() == 1 {
        parts[0]
    } else {
        joined(parts.drop_last(), sep) + sep + parts.last()
    }
}

/// `parts` joined with `sep`.
pub fn join_strings(parts: &Vec<String>, sep: &str) -> (r: String)
    ensures
        r@ == joined(views(parts@), sep@),
{
    let mut r = String::new();
    let n = parts.len();
    let ghost pv = views(parts@);
    for i in 0..n
        invariant
            n == parts@.len(),
            pv == views(parts@),
            r@ == joined(pv.take(i as int), sep@),
    {
        assert(pv.take(i + 1).drop_last() == pv.take(i as int));
        if i != 0 {
            r.append(sep);
        }
        r.append(parts[i].as_str());
    }
    assert(pv.take(n as int) == pv);
    r
}

/// The decimal digit for `d < 10`.
pub open spec fn digit_char(d: nat) -> char {
    if d == 0 { '0' }
    else if d == 1 { '1' }
    else if d == 2 { '2' }
    else if d == 3 { '3' }
    else if d == 4 { '4' }
    else if d == 5 { '5' }
    else if d == 6 { '6' }
    else if d == 7 { '7' }
    else if d == 8 { '8' }
    else { '9' }
}

/// The decimal numeral of `n`, without sign or leading zeros.
pub open spec fn decimal(n: nat) -> Seq<char>
    decreases n,
{
    if n < 10 {
        seq![digit_char(n)]
    } else {
        decimal(n / 10) + seq![digit_char(n % 10)]
    }
}

fn digit(d: u64) -> (c: char)
    requires
        d < 10,
    ensures
        c == digit_char(d as nat),
{
    if d == 0 { '0' }
    else if d == 1 { '1' }
    else if d == 2 { '2' }
    else if d == 3 { '3' }
    else if d == 4 { '4' }
    else if d == 5 { '5' }
    else if d == 6 { '6' }
    else if d == 7 { '7' }
    else if d == 8 { '8' }
    else { '9' }
}

fn decimal_chars(n: u64) -> (r: Vec<char>)
    ensures
        r@ == decimal(n as nat),
    decreases n,
{
    if n < 10 {
        let mut r = Vec::new();
        r.push(digit(n));
        r
    } else {
        let mut r = decimal_chars(n / 10);
        r.push(digit(n % 10));
        r
    }
}

/// The decimal numeral of `n`, as `n.to_string()`.
pub fn decimal_string(n: u64) -> (r: String)
    ensures
        r@ == decimal(n as nat),
{
    let v = decimal_chars(n);
    string_from_chars(&v)
}

/// The fields of `s` between occurrences of `d`, as `str::split` with a
/// character pattern: always at least one field.
pub open spec fn split_on(s: Seq<char>, d: char) -> Seq<Seq<char>>
    decreases s.len(),
{
    if s.len() == 0 {
        seq![Seq::empty()]
    } else {
        let f = split_on(s.drop_last(), d);
        if s.last() == d {
            f.push(Seq::empty())
        } else {
            f.update(f.len() - 1, f.last().push(s.last()))
        }
    }
}

/// `split_on` never yields an empty list of fields.
pub proof fn lemma_split_on_nonempty(s: Seq<char>, d: char)
    ensures
        split_on(s, d).len() >= 1,
    decreases s.len(),
{
    if s.len() > 0 {
        lemma_split_on_nonempty(s.drop_last(), d);
    }
}

/// Every character of every field of `s` split at `d` is a character of `s`.
pub proof fn lemma_split_on_chars(s: Seq<char>, d: char, k: int, j: int)
    requires
        0 <= k < split_on(s, d).len(),
        0 <= j < split_on(s, d)[k].len(),
    ensures
        s.contains(split_on(s, d)[k][j]),
    decreases s.len(),
{
    if s.len() > 0 {
        let f = split_on(s.drop_last(), d);
        lemma_split_on_nonempty(s.drop_last(), d);
        let c = split_on(s, d)[k][j];
        if s.last() == d {
            if k < f.len() {
                lemma_split_on_chars(s.drop_last(), d, k, j);
                let i = choose|i: int| 0 <= i < s.drop_last().len() && s.drop_last()[i] == c;
                assert(s[i] == c);
            }
        } else if k == f.len() - 1 && j == f.last().len() {
            assert(s[s.len() - 1] == c);
        } else {
            lemma_split_on_chars(s.drop_last(), d, k, j);
            let i = choose|i: int| 0 <= i < s.drop_last().len() && s.drop_last()[i] == c;
            assert(s[i] == c);
        }
    }
}

/// The views of a sequence of character vectors.
pub open spec fn char_views(v: Seq<Vec<char>>) -> Seq<Seq<char>> {
    v.map_values(|c: Vec<char>| c@)
}

/// The fields of `s` between occurrences of `d`.
pub fn split_chars(s: &Vec<char>, d: char) -> (r: Vec<Vec<char>>)
    ensures
        char_views(r@) == split_on(s@, d),
{
    let mut done: Vec<Vec<char>> = Vec::new();
    let mut cur: Vec<char> = Vec::new();
    let n = s.len();
    assert(s@.take(0) =~= Seq::<char>::empty());
    for i in 0..n
        invariant
            n == s@.len(),
            split_on(s@.take(i as int), d) == char_views(done@).push(cur@),
    {
        let ghost pre = s@.take(i as int);
        assert(s@.take(i + 1).drop_last() == pre);
        assert(s@.take(i + 1).last() == s@[i as int]);
        proof {
            lemma_split_on_nonempty(pre, d);
        }
        let c = s[i];
        if c == d {
            let ghost old_cur = cur@;
            let finished = cur;
            done.push(finished);
            cur = Vec::new();
            assert(char_views(done@) == char_views(done@.drop_last()).push(old_cur));
            assert(split_on(s@.take(i + 1), d) =~= char_views(done@).push(cur@));
        } else {
            cur.push(c);
            assert(split_on(s@.take(i + 1), d) =~= char_views(done@).push(cur@));
        }
    }
    assert(s@.take(n as int) == s@);
    let ghost last = cur@;
    done.push(cur);
    assert(char_views(done@) =~= char_views(done@.drop_last()).push(last));
    done
}

/// The `k`-th field of `s` split at `d`, as `s.split(d).nth(k)`.
pub fn nth_field(s: &str, d: char, k: usize) -> (r: Option<String>)
    ensures
        match r {
            Some(f) => k < split_on(s@, d).len() && f@ == split_on(s@, d)[k as int],
            None => k >= split_on(s@, d).len(),
        },
{
    let sv = chars_of(s);
    let fields = split_chars(&sv, d);
    if k < fields.len() {
        assert(char_views(fields@)[k as int] == fields@[k as int]@);
        Some(string_from_chars(&fields[k]))
    } else {
        None
    }
}

/// A line without the carriage return of a `\r\n` ending.
pub open spec fn strip_cr(l: Seq<char>) -> Seq<char> {
    if l.len() > 0 && l.last() == '\r' {
        l.drop_last()
    } else {
        l
    }
}

/// The lines of `s`, as `str::lines`: split at `\n`, a `\r` before a `\n`
/// dropped, and no empty line after a final line ending.
pub open spec fn lines_of(s: Seq<char>) -> Seq<Seq<char>> {
    let f = split_on(s, '\n');
    let ended = f.drop_last().map_values(|l: Seq<char>| strip_cr(l));
    if f.last().len() == 0 {
        ended
    } else {
        ended.push(f.last())
    }
}

/// The last `count` lines of `s`, the last line first.
pub open spec fn last_lines_reversed(s: Seq<char>, count: nat) -> Seq<Seq<char>> {
    let l = lines_of(s);
    let n = if l.len() < count { l.len() } else { count };
    Seq::new(n, |k: int| l[l.len() - 1 - k])
}

/// The number of log lines shown when the game stops at once.
pub const LOG_TAIL_LINES: usize = 30;

/// The last 30 lines of a log, the last one first, joined with newlines;
/// what the launcher shows when the game exits at once.
pub fn log_tail(content: &str) -> (r: String)
    ensures
        r@ == joined(last_lines_reversed(content@, LOG_TAIL_LINES as nat), "\n"@),
{
    let cv = chars_of(content);
    let fields = split_chars(&cv, '\n');
    let ghost f = split_on(content@, '\n');
    proof {
        lemma_split_on_nonempty(content@, '\n');
    }
    let nf = fields.len();
    let mut lines: Vec<String> = Vec::new();
    for i in 0..nf - 1
        invariant
            nf == fields@.len(),
            nf >= 1,
            f == char_views(fields@),
            views(lines@) == f.drop_last().map_values(|l: Seq<char>| strip_cr(l)).take(i as int),
    {
        let line = &fields[i];
        assert(f[i as int] == line@);
        let len = line.len();
        let s = if len > 0 && line[len - 1] == '\r' {
            let mut t: Vec<char> = Vec::new();
            for j in 0..len - 1
                invariant
                    len == line@.len(),
                    len > 0,
                    t@ == line@.take(j as int),
            {
                t.push(line[j]);
                assert(line@.take(j + 1) == line@.take(j as int).push(line@[j as int]));
            }
            assert(t@ =~= line@.drop_last());
            string_from_chars(&t)
        } else {
            string_from_chars(line)
        };
        assert(s@ == strip_cr(f[i as int]));
        let ghost old_lines = lines@;
        let ghost sv = s@;
        lines.push(s);
        assert(views(lines@) =~= views(old_lines).push(sv));
        assert(f.drop_last().map_values(|l: Seq<char>| strip_cr(l))[i as int] == sv);
        assert(views(lines@) =~= f.drop_last().map_values(|l: Seq<char>| strip_cr(l)).take(i + 1));
    }
    assert(f.drop_last().map_values(|l: Seq<char>| strip_cr(l)).take(nf - 1) =~= f.drop_last().map_values(|l: Seq<char>| strip_cr(l)));
    let last = &fields[nf - 1];
    assert(f.last() == last@);
    if last.len() != 0 {
        let ls = string_from_chars(last);
        let ghost before = views(lines@);
        lines.push(ls);
        assert(views(lines@) =~= before.push(f.last()));
    }
    let ghost l = lines_of(content@);
    assert(views(lines@) == l);
    let total = lines.len();
    let count = if total < LOG_TAIL_LINES { total } else { LOG_TAIL_LINES };
    let ghost picked = last_lines_reversed(content@, LOG_TAIL_LINES as nat);
    let mut tail: Vec<String> = Vec::new();
    for k in 0..count
        invariant
            total == lines@.len(),
            count <= total,
            count == picked.len(),
            views(lines@) == l,
            picked == Seq::new(count as nat, |k: int| l[l.len() - 1 - k]),
            views(tail@) == picked.take(k as int),
    {
        let line = lines[total - 1 - k].clone();
        assert(line@ == l[l.len() - 1 - k]);
        let ghost old_tail = tail@;
        let ghost lv = line@;
        tail.push(line);
        assert(views(tail@) =~= views(old_tail).push(lv));
        assert(picked[k as int] == lv);
        assert(views(tail@) =~= picked.take(k + 1));
    }
    assert(picked.take(count as int) == picked);
    join_strings(&tail, "\n")
}

} // verus!
