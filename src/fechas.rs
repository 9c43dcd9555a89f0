use vstd::prelude::*;
use vstd::string::*;

verus! {

/// `k` is the first position of `c` in `s`.
pub open spec fn es_primera(s: Seq<char>, c: char, k: int) -> bool {
    &&& 0 <= k < s.len()
    &&& s[k] == c
    &&& forall|j: int| 0 <= j < k ==> s[j] != c
}

/// The first position of `c` in `s`, or -1 where `s` has none.
pub open spec fn posicion(s: Seq<char>, c: char) -> int {
    if exists|k: int| es_primera(s, c, k) {
        choose|k: int| es_primera(s, c, k)
    } else {
        -1
    }
}

/// `s` without the characters from the first `c` on.
pub open spec fn antes_de(s: Seq<char>, c: char) -> Seq<char> {
    if posicion(s, c) >= 0 {
        s.subrange(0, posicion(s, c))
    } else {
        s
    }
}

/// `s` without its trailing `Z` characters.
pub open spec fn sin_z_final(s: Seq<char>) -> Seq<char>
    decreases s.len(),
{
    if s.len() > 0 && s.last() == 'Z' {
        sin_z_final(s.drop_last())
    } else {
        s
    }
}

/// A stored date written as `YYYY-MM-DD HH:MM:SS`: a `T` separator becomes a
/// space and a trailing `Z` goes; fractional seconds go. A text with neither a
/// `T` nor a space is kept as it is.
pub open spec fn fecha_normalizada(v: Seq<char>) -> Seq<char> {
    let t = posicion(v, 'T');
    let e = posicion(v, ' ');
    if t >= 0 {
        v.subrange(0, t) + " "@ + antes_de(sin_z_final(v.subrange(t + 1, v.len() as int)), '.')
    } else if e >= 0 {
        v.subrange(0, e) + " "@ + antes_de(v.subrange(e + 1, v.len() as int), '.')
    } else {
        v
    }
}

proof fn lema_primera_unica(s: Seq<char>, c: char, k: int)
    requires
        es_primera(s, c, k),
    ensures
        posicion(s, c) == k,
{
    let w = choose|w: int| es_primera(s, c, w);
    assert(es_primera(s, c, w));
    if w < k {
        assert(s[w] != c);
    } else if k < w {
        assert(s[k] != c);
    }
}

proof fn lema_sin_c(s: Seq<char>, c: char)
    requires
        forall|j: int| 0 <= j < s.len() ==> s[j] != c,
    ensures
        posicion(s, c) == -1,
{
    if exists|k: int| es_primera(s, c, k) {
        let k = choose|k: int| es_primera(s, c, k);
        assert(s[k] != c);
    }
}

fn buscar(s: &str, c: char) -> (r: Option<usize>)
    ensures
        match r {
            Some(k) => k < s@.len() && posicion(s@, c) == k as int,
            None => posicion(s@, c) == -1,
        },
{
    let n = s.unicode_len();
    let mut i: usize = 0;
    while i < n
        invariant
            n == s@.len(),
            i <= n,
            forall|j: int| 0 <= j < i ==> s@[j] != c,
        decreases n - i,
    {
        if s.get_char(i) == c {
            proof {
                lema_primera_unica(s@, c, i as int);
            }
            return Some(i);
        }
        i = i + 1;
    }
    proof {
        lema_sin_c(s@, c);
    }
    None
}

fn hasta_punto(s: &str) -> (r: &str)
    ensures
        r@ == antes_de(s@, '.'),
{
    match buscar(s, '.') {
        Some(k) => s.substring_char(0, k),
        None => s,
    }
}

fn quitar_z(s: &str) -> (r: &str)
    ensures
        r@ == sin_z_final(s@),
{
    let mut j: usize = s.unicode_len();
    assert(s@.subrange(0, j as int) == s@);
    while j > 0 && s.get_char(j - 1) == 'Z'
        invariant
            j <= s@.len(),
            sin_z_final(s@) == sin_z_final(s@.subrange(0, j as int)),
        decreases j,
    {
        assert(s@.subrange(0, j as int).drop_last() == s@.subrange(0, j - 1));
        j = j - 1;
    }
    assert(s@.subrange(0, 0) == Seq::<char>::empty());
    s.substring_char(0, j)
}

fn unir_fecha_hora(fecha: &str, hora: &str) -> (r: String)
    ensures
        r@ == fecha@ + " "@ + hora@,
{
    let mut r = String::from_str(fecha);
    r.append(" ");
    r.append(hora);
    r
}

/// Writes a stored date as `YYYY-MM-DD HH:MM:SS`, as `fecha_normalizada` says.
pub fn normalize_fecha(value: &str) -> (r: String)
    ensures
        r@ == fecha_normalizada(value@),
{
    let n = value.unicode_len();
    match buscar(value, 'T') {
        Some(t) => {
            let fecha = value.substring_char(0, t);
            let resto = value.substring_char(t + 1, n);
            let hora = hasta_punto(quitar_z(resto));
            unir_fecha_hora(fecha, hora)
        },
        None => match buscar(value, ' ') {
            Some(e) => {
                let fecha = value.substring_char(0, e);
                let resto = value.substring_char(e + 1, n);
                let hora = hasta_punto(resto);
                unir_fecha_hora(fecha, hora)
            },
            None => String::from_str(value),
        },
    }
}

} // verus!
