use vstd::prelude::*;

verus! {

/// A local date and time to the second, as plain fields.
#[derive(Clone, Copy, Debug)]
pub struct Marca {
    pub anio: i32,
    pub mes: u32,
    pub dia: u32,
    pub hora: u32,
    pub minuto: u32,
    pub segundo: u32,
}

pub open spec fn es_bisiesto(anio: int) -> bool {
    (anio % 4 == 0 && anio % 100 != 0) || anio % 400 == 0
}

/// The number of days of month `mes` (1 to 12) of year `anio`.
pub open spec fn dias_del_mes(anio: int, mes: int) -> int {
    if mes == 2 {
        if es_bisiesto(anio) {
            29
        } else {
            28
        }
    } else if mes == 4 || mes == 6 || mes == 9 || mes == 11 {
        30
    } else {
        31
    }
}

/// `m` is a real date and time of a four-digit year.
pub open spec fn marca_valida(m: Marca) -> bool {
    &&& 0 <= m.anio <= 9999
    &&& 1 <= m.mes <= 12
    &&& 1 <= m.dia <= dias_del_mes(m.anio as int, m.mes as int)
    &&& m.hora < 24
    &&& m.minuto < 60
    &&& m.segundo < 60
}

/// The decimal digit `d` (0 to 9).
pub open spec fn digito(d: int) -> char {
    "0123456789"@[d]
}

/// The last `n` decimal digits of `v`, zero-padded to `n` characters.
pub open spec fn digitos(v: nat, n: nat) -> Seq<char>
    decreases n,
{
    if n == 0 {
        Seq::empty()
    } else {
        digitos(v / 10, (n - 1) as nat).push(digito((v % 10) as int))
    }
}

/// `YYYYMMDD_HHMMSS` for `m`.
pub open spec fn texto_sello(m: Marca) -> Seq<char> {
    digitos(m.anio as nat, 4) + digitos(m.mes as nat, 2) + digitos(m.dia as nat, 2) + "_"@ + digitos(
        m.hora as nat,
        2,
    ) + digitos(m.minuto as nat, 2) + digitos(m.segundo as nat, 2)
}

fn dias_mes(anio: i32, mes: u32) -> (r: u32)
    requires
        0 <= anio <= 9999,
        1 <= mes <= 12,
    ensures
        r as int == dias_del_mes(anio as int, mes as int),
{
    if mes == 2 {
        if (anio % 4 == 0 && anio % 100 != 0) || anio % 400 == 0 {
            29
        } else {
            28
        }
    } else if mes == 4 || mes == 6 || mes == 9 || mes == 11 {
        30
    } else {
        31
    }
}

impl Marca {
    /// The date and time with these fields, where they name a real one of a
    /// four-digit year.
    pub fn nueva(anio: i32, mes: u32, dia: u32, hora: u32, minuto: u32, segundo: u32) -> (r: Option<Marca>)
        ensures
            match r {
                Some(m) => marca_valida(m) && m == (Marca { anio, mes, dia, hora, minuto, segundo }),
                None => !marca_valida(Marca { anio, mes, dia, hora, minuto, segundo }),
            },
    {
        if anio < 0 || anio > 9999 || mes < 1 || mes > 12 || hora >= 24 || minuto >= 60 || segundo >= 60 {
            return None;
        }
        if dia < 1 || dia > dias_mes(anio, mes) {
            return None;
        }
        Some(Marca { anio, mes, dia, hora, minuto, segundo })
    }
}

/// Relies on chrono: `NaiveDate::from_ymd_opt` and `NaiveDate::and_hms_opt`
/// accept every valid date and time, and `format("%Y%m%d_%H%M%S")` writes the
/// year zero-padded to four digits and each other field zero-padded to two.
#[verifier::external_body]
pub(crate) fn sello(m: &Marca) -> (r: String)
    requires
        marca_valida(*m),
    ensures
        r@ == texto_sello(*m),
{
    chrono::NaiveDate::from_ymd_opt(m.anio, m.mes, m.dia)
        .and_then(|d| d.and_hms_opt(m.hora, m.minuto, m.segundo))
        .map(|t| t.format("%Y%m%d_%H%M%S").to_string())
        .unwrap_or_default()
}

} // verus!
