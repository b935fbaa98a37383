use vstd::prelude::*;
use crate::error::SetupError;

verus! {

/// A named source of trusted root certificates.
#[derive(PartialEq, Eq, Structural, Clone, Copy, Debug)]
pub enum CaStore {
    /// The bundled default set.
    Mozilla,
    /// The platform's native certificates.
    System,
}

/// Unicode `White_Space`, which `char::is_whitespace` tests.
pub open spec fn is_space(c: char) -> bool {
    let u = c as u32;
    (0x09 <= u && u <= 0x0D) || u == 0x20 || u == 0x85 || u == 0xA0 || u == 0x1680 || (0x2000 <= u
        && u <= 0x200A) || u == 0x2028 || u == 0x2029 || u == 0x202F || u == 0x205F || u == 0x3000
}

fn char_is_space(c: char) -> (r: bool)
    ensures
        r == is_space(c),
{
    let u = c as u32;
    (0x09 <= u && u <= 0x0D) || u == 0x20 || u == 0x85 || u == 0xA0 || u == 0x1680 || (0x2000 <= u
        && u <= 0x200A) || u == 0x2028 || u == 0x2029 || u == 0x202F || u == 0x205F || u == 0x3000
}

/// The pieces of `s` between commas, empty ones included.
pub open spec fn comma_fields(s: Seq<char>) -> Seq<Seq<char>>
    decreases s.len(),
{
    if s.len() == 0 {
        seq![Seq::empty()]
    } else {
        let f = comma_fields(s.drop_last());
        if s.last() == ',' {
            f.push(Seq::empty())
        } else {
            f.update(f.len() - 1, f.last().push(s.last()))
        }
    }
}

pub open spec fn trim_start(s: Seq<char>) -> Seq<char>
    decreases s.len(),
{
    if s.len() > 0 && is_space(s[0]) {
        trim_start(s.drop_first())
    } else {
        s
    }
}

pub open spec fn trim_end(s: Seq<char>) -> Seq<char>
    decreases s.len(),
{
    if s.len() > 0 && is_space(s.last()) {
        trim_end(s.drop_last())
    } else {
        s
    }
}

/// `s` without white space at either end.
pub open spec fn trim(s: Seq<char>) -> Seq<char> {
    trim_end(trim_start(s))
}

/// The trimmed fields that are not empty, in order.
pub open spec fn store_names(fs: Seq<Seq<char>>) -> Seq<Seq<char>>
    decreases fs.len(),
{
    if fs.len() == 0 {
        Seq::empty()
    } else {
        let rest = store_names(fs.drop_last());
        let t = trim(fs.last());
        if t.len() == 0 {
            rest
        } else {
            rest.push(t)
        }
    }
}

/// The stores that `names` name, or the first name that is none of them.
pub open spec fn stores_of_names(names: Seq<Seq<char>>) -> Result<Seq<CaStore>, Seq<char>>
    decreases names.len(),
{
    if names.len() == 0 {
        Ok(Seq::empty())
    } else {
        match stores_of_names(names.drop_last()) {
            Err(e) => Err(e),
            Ok(v) => if names.last() == "mozilla"@ {
                Ok(v.push(CaStore::Mozilla))
            } else if names.last() == "system"@ {
                Ok(v.push(CaStore::System))
            } else {
                Err(names.last())
            },
        }
    }
}

/// The trust stores selected by a comma-separated list, or by default the
/// bundled one; `Err` holds the first unknown name.
pub open spec fn selected_stores(setting: Option<Seq<char>>) -> Result<Seq<CaStore>, Seq<char>> {
    match setting {
        None => Ok(seq![CaStore::Mozilla]),
        Some(s) => stores_of_names(store_names(comma_fields(s))),
    }
}

proof fn lemma_trim_start_at(s: Seq<char>, a: int)
    requires
        0 <= a <= s.len(),
        forall|j: int| 0 <= j < a ==> is_space(#[trigger] s[j]),
        a == s.len() || !is_space(s[a]),
    ensures
        trim_start(s) == s.subrange(a, s.len() as int),
    decreases a,
{
    if a == 0 {
        assert(s.subrange(0, s.len() as int) =~= s);
    } else {
        let t = s.drop_first();
        assert forall|j: int| 0 <= j < a - 1 implies is_space(#[trigger] t[j]) by {
            assert(t[j] == s[j + 1]);
        }
        lemma_trim_start_at(t, a - 1);
        assert(t.subrange(a - 1, t.len() as int) =~= s.subrange(a, s.len() as int));
    }
}

proof fn lemma_trim_end_at(s: Seq<char>, b: int)
    requires
        0 <= b <= s.len(),
        forall|j: int| b <= j < s.len() ==> is_space(#[trigger] s[j]),
        b == 0 || !is_space(s[b - 1]),
    ensures
        trim_end(s) == s.subrange(0, b),
    decreases s.len() - b,
{
    if b == s.len() {
        assert(s.subrange(0, b) =~= s);
    } else {
        let t = s.drop_last();
        assert forall|j: int| b <= j < t.len() implies is_space(#[trigger] t[j]) by {
            assert(t[j] == s[j]);
        }
        lemma_trim_end_at(t, b);
        assert(t.subrange(0, b) =~= s.subrange(0, b));
    }
}

proof fn lemma_error_persists(fs: Seq<Seq<char>>, i: int, e: Seq<char>)
    requires
        0 <= i <= fs.len(),
        stores_of_names(store_names(fs.take(i))) == Err::<Seq<CaStore>, Seq<char>>(e),
    ensures
        stores_of_names(store_names(fs)) == Err::<Seq<CaStore>, Seq<char>>(e),
    decreases fs.len() - i,
{
    if i < fs.len() {
        let p = fs.take(i + 1);
        assert(p.drop_last() =~= fs.take(i));
        if trim(p.last()).len() != 0 {
            assert(store_names(p).drop_last() =~= store_names(fs.take(i)));
        }
        lemma_error_persists(fs, i + 1, e);
    } else {
        assert(fs.take(i) =~= fs);
    }
}

/// Trims white space from both ends of `s`.
pub fn trim_text(s: &str) -> (r: String)
    ensures
        r@ == trim(s@),
{
    let n = s.unicode_len();
    let mut a: usize = 0;
    while a < n && char_is_space(s.get_char(a))
        invariant
            n == s@.len(),
            0 <= a <= n,
            forall|j: int| 0 <= j < a ==> is_space(#[trigger] s@[j]),
        decreases n - a,
    {
        a = a + 1;
    }
    let mut b: usize = n;
    while b > a && char_is_space(s.get_char(b - 1))
        invariant
            n == s@.len(),
            0 <= a <= b <= n,
            forall|j: int| b <= j < n ==> is_space(#[trigger] s@[j]),
        decreases b - a,
    {
        b = b - 1;
    }
    proof {
        lemma_trim_start_at(s@, a as int);
        let t = s@.subrange(a as int, n as int);
        assert forall|j: int| b - a <= j < t.len() implies is_space(#[trigger] t[j]) by {
            assert(t[j] == s@[a + j]);
        }
        if b > a {
            assert(t[b - a - 1] == s@[b - 1]);
        }
        lemma_trim_end_at(t, b - a);
        assert(t.subrange(0, b - a) =~= s@.subrange(a as int, b as int));
    }
    String::from_str(s.substring_char(a, b))
}

/// Splits `s` at each comma.
pub fn split_commas(s: &str) -> (r: Vec<String>)
    ensures
        r@.map_values(|f: String| f@) == comma_fields(s@),
{
    let n = s.unicode_len();
    let mut out: Vec<String> = Vec::new();
    let mut start: usize = 0;
    let mut i: usize = 0;
    proof {
        assert(s@.take(0) =~= Seq::<char>::empty());
        assert(out@.map_values(|f: String| f@) =~= Seq::<Seq<char>>::empty());
        assert(s@.subrange(0, 0) =~= Seq::<char>::empty());
        assert(comma_fields(Seq::<char>::empty()) == seq![Seq::<char>::empty()]);
    }
    while i < n
        invariant
            n == s@.len(),
            0 <= start <= i <= n,
            comma_fields(s@.take(i as int)) == out@.map_values(|f: String| f@).push(
                s@.subrange(start as int, i as int),
            ),
        decreases n - i,
    {
        let c = s.get_char(i);
        let ghost prev = s@.take(i as int);
        proof {
            assert(s@.take(i as int + 1).drop_last() =~= prev);
            assert(s@.take(i as int + 1).last() == c);
        }
        if c == ',' {
            let piece = String::from_str(s.substring_char(start, i));
            let ghost before = out@;
            out.push(piece);
            proof {
                assert(out@.map_values(|f: String| f@) =~= before.map_values(|f: String| f@).push(
                    s@.subrange(start as int, i as int),
                ));
                assert(s@.subrange(i as int + 1, i as int + 1) =~= Seq::<char>::empty());
            }
            start = i + 1;
        } else {
            proof {
                assert(s@.subrange(start as int, i as int + 1) =~= s@.subrange(
                    start as int,
                    i as int,
                ).push(c));
            }
        }
        i = i + 1;
    }
    let last = String::from_str(s.substring_char(start, n));
    let ghost before = out@;
    out.push(last);
    proof {
        assert(s@.take(n as int) =~= s@);
        assert(out@.map_values(|f: String| f@) =~= before.map_values(|f: String| f@).push(
            s@.subrange(start as int, n as int),
        ));
    }
    out
}

/// Selects the trust stores from a comma-separated list of names; with no
/// list, the bundled `mozilla` store. Blank entries are skipped; the first
/// name that is neither `mozilla` nor `system` is an error.
pub fn select_ca_stores(setting: Option<&str>) -> (r: Result<Vec<CaStore>, SetupError>)
    ensures
        match selected_stores(
            match setting {
                Some(s) => Some(s@),
                None => None,
            },
        ) {
            Ok(w) => r is Ok && r->Ok_0@ == w,
            Err(n) => r matches Err(SetupError::UnknownCertStore(name)) && name@ == n,
        },
{
    let s = match setting {
        None => {
            let mut v: Vec<CaStore> = Vec::new();
            v.push(CaStore::Mozilla);
            assert(v@ =~= seq![CaStore::Mozilla]);
            return Ok(v);
        },
        Some(s) => s,
    };
    let fields = split_commas(s);
    let ghost fs = fields@.map_values(|f: String| f@);
    let mozilla = String::from_str("mozilla");
    let system = String::from_str("system");
    let mut stores: Vec<CaStore> = Vec::new();
    let mut i: usize = 0;
    while i < fields.len()
        invariant
            fs == fields@.map_values(|f: String| f@),
            fs == comma_fields(s@),
            setting == Some(s),
            0 <= i <= fields@.len(),
            mozilla@ == "mozilla"@,
            system@ == "system"@,
            stores_of_names(store_names(fs.take(i as int))) == Ok::<Seq<CaStore>, Seq<char>>(
                stores@,
            ),
        decreases fields@.len() - i,
    {
        let t = trim_text(fields[i].as_str());
        proof {
            assert(fs.take(i as int + 1).drop_last() =~= fs.take(i as int));
            assert(fs.take(i as int + 1).last() == fields@[i as int]@);
            let names = store_names(fs.take(i as int + 1));
            if t@.len() > 0 {
                assert(names.drop_last() =~= store_names(fs.take(i as int)));
                assert(names.last() == t@);
            } else {
                assert(names == store_names(fs.take(i as int)));
            }
        }
        if t.as_str().unicode_len() > 0 {
            if t == mozilla {
                stores.push(CaStore::Mozilla);
            } else if t == system {
                stores.push(CaStore::System);
            } else {
                proof {
                    lemma_error_persists(fs, i as int + 1, t@);
                }
                return Err(SetupError::UnknownCertStore(t));
            }
        }
        i = i + 1;
    }
    assert(fs.take(i as int) =~= fs);
    Ok(stores)
}

} // verus!
