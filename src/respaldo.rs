use vstd::prelude::*;
use vstd::string::*;
use crate::marca::{Marca, marca_valida, texto_sello, sello};
use crate::rutas::{
    extension_de_ruta, padre_de_ruta, union_de_rutas, ruta_con_extension, extension, padre,
    unir, con_extension,
};
use crate::texto::mismo_texto;

verus! {

/// Why a file is refused as a replacement store.
#[derive(Debug)]
pub enum ErrorImportacion {
    /// The file does not exist.
    ArchivoNoEncontrado,
    /// The file name does not end in the store extension.
    ExtensionInvalida,
    /// The file does not begin with the store format's header.
    NoEsSqlite,
    /// The file's list of tables could not be read.
    BaseCorrupta,
    /// The file lacks a table that the application needs.
    FaltaTabla { tabla: &'static str },
}

/// The machine-checkable code of an import refusal.
pub open spec fn codigo_error(e: ErrorImportacion) -> Seq<char> {
    match e {
        ErrorImportacion::ArchivoNoEncontrado => "FILE_NOT_FOUND"@,
        ErrorImportacion::ExtensionInvalida => "INVALID_EXTENSION"@,
        ErrorImportacion::NoEsSqlite => "NOT_SQLITE"@,
        ErrorImportacion::BaseCorrupta => "CORRUPT_DB"@,
        ErrorImportacion::FaltaTabla { tabla } => "MISSING_TABLE:"@ + tabla@,
    }
}

impl ErrorImportacion {
    /// The code of this refusal, such as `NOT_SQLITE` or `MISSING_TABLE:ventas`.
    pub fn codigo(&self) -> (r: String)
        ensures
            r@ == codigo_error(*self),
    {
        match self {
            ErrorImportacion::ArchivoNoEncontrado => String::from_str("FILE_NOT_FOUND"),
            ErrorImportacion::ExtensionInvalida => String::from_str("INVALID_EXTENSION"),
            ErrorImportacion::NoEsSqlite => String::from_str("NOT_SQLITE"),
            ErrorImportacion::BaseCorrupta => String::from_str("CORRUPT_DB"),
            ErrorImportacion::FaltaTabla { tabla } => {
                let mut s = String::from_str("MISSING_TABLE:");
                s.append(tabla);
                s
            },
        }
    }
}

/// The 16 bytes that every store file begins with: `SQLite format 3` and a zero byte.
pub open spec fn cabecera_sqlite() -> Seq<u8> {
    seq![83u8, 81, 76, 105, 116, 101, 32, 102, 111, 114, 109, 97, 116, 32, 51, 0]
}

/// The tables that a replacement store must hold, in the order they are checked.
pub open spec fn tablas_requeridas() -> Seq<&'static str> {
    seq!["categorias", "productos", "ventas", "productos_vendidos"]
}

/// The extension is the store's, `db`, in any case of letters.
pub open spec fn extension_valida(ext: Option<Seq<char>>) -> bool {
    match ext {
        Some(e) => e.len() == 2 && (e[0] == 'd' || e[0] == 'D') && (e[1] == 'b' || e[1] == 'B'),
        None => false,
    }
}

/// The bytes begin with the store format's header.
pub open spec fn es_cabecera_sqlite(b: Seq<u8>) -> bool {
    b.len() >= 16 && b.subrange(0, 16) == cabecera_sqlite()
}

/// Some listed table is named `n`.
pub open spec fn contiene_tabla(tablas: Seq<String>, n: Seq<char>) -> bool {
    exists|i: int| 0 <= i < tablas.len() && tablas[i]@ == n
}

/// The first of `req` that `tablas` lacks.
pub open spec fn faltante(req: Seq<&'static str>, tablas: Seq<String>) -> Option<&'static str>
    decreases req.len(),
{
    if req.len() == 0 {
        None
    } else if contiene_tabla(tablas, req[0]@) {
        faltante(req.subrange(1, req.len() as int), tablas)
    } else {
        Some(req[0])
    }
}

/// The outcome of an attempt to read something of the candidate file.
pub enum Lectura<T> {
    /// Not read yet.
    Pendiente,
    /// Reading failed.
    Fallida,
    /// What was read.
    Hecha(T),
}

/// What to do next in the validation of a candidate replacement store.
#[derive(Debug)]
pub enum PasoValidacion {
    /// Read the file's bytes and ask again.
    LeerCabecera,
    /// Open the file read-only, list its tables, and ask again.
    ListarTablas,
    /// Every check passed.
    Aceptar,
    /// The file is refused.
    Rechazar(ErrorImportacion),
}

/// The validation of a candidate file, in its fixed order, given what has been
/// read of it so far: it exists; its extension is the store's; it begins with
/// the store header; it holds every required table. A check whose input has not
/// been read yet asks for it.
pub open spec fn paso_validacion(
    existe: bool,
    ext: Option<Seq<char>>,
    cabecera: Option<Seq<u8>>,
    tablas: Lectura<Seq<String>>,
) -> PasoValidacion {
    if !existe {
        PasoValidacion::Rechazar(ErrorImportacion::ArchivoNoEncontrado)
    } else if !extension_valida(ext) {
        PasoValidacion::Rechazar(ErrorImportacion::ExtensionInvalida)
    } else {
        match cabecera {
            None => PasoValidacion::LeerCabecera,
            Some(b) => if !es_cabecera_sqlite(b) {
                PasoValidacion::Rechazar(ErrorImportacion::NoEsSqlite)
            } else {
                match tablas {
                    Lectura::Pendiente => PasoValidacion::ListarTablas,
                    Lectura::Fallida => PasoValidacion::Rechazar(ErrorImportacion::BaseCorrupta),
                    Lectura::Hecha(t) => match faltante(tablas_requeridas(), t) {
                        Some(n) => PasoValidacion::Rechazar(ErrorImportacion::FaltaTabla { tabla: n }),
                        None => PasoValidacion::Aceptar,
                    },
                }
            },
        }
    }
}

/// Whether an extension is the store's, `db`, in any case of letters.
pub fn extension_aceptada(ext: &Option<String>) -> (r: bool)
    ensures
        r == extension_valida(
            match ext {
                Some(e) => Some(e@),
                None => None,
            },
        ),
{
    match ext {
        Some(e) => {
            let s = e.as_str();
            if s.unicode_len() != 2 {
                return false;
            }
            let a = s.get_char(0);
            let b = s.get_char(1);
            (a == 'd' || a == 'D') && (b == 'b' || b == 'B')
        },
        None => false,
    }
}

/// Whether `bytes` begins with the store format's header.
pub fn cabecera_valida(bytes: &Vec<u8>) -> (r: bool)
    ensures
        r == es_cabecera_sqlite(bytes@),
{
    let esperada: [u8; 16] = [83u8, 81, 76, 105, 116, 101, 32, 102, 111, 114, 109, 97, 116, 32, 51, 0];
    assert(esperada@ == cabecera_sqlite());
    if bytes.len() < 16 {
        return false;
    }
    let mut i: usize = 0;
    while i < 16
        invariant
            bytes@.len() >= 16,
            i <= 16,
            esperada@ == cabecera_sqlite(),
            forall|k: int| 0 <= k < i ==> bytes@[k] == cabecera_sqlite()[k],
        decreases 16 - i,
    {
        if bytes[i] != esperada[i] {
            assert(bytes@.subrange(0, 16)[i as int] != cabecera_sqlite()[i as int]);
            return false;
        }
        i = i + 1;
    }
    assert(bytes@.subrange(0, 16) == cabecera_sqlite());
    true
}

fn lista_tiene(tablas: &Vec<String>, n: &str) -> (r: bool)
    ensures
        r == contiene_tabla(tablas@, n@),
{
    let mut i: usize = 0;
    while i < tablas.len()
        invariant
            i <= tablas@.len(),
            forall|k: int| 0 <= k < i ==> tablas@[k]@ != n@,
        decreases tablas@.len() - i,
    {
        if mismo_texto(tablas[i].as_str(), n) {
            return true;
        }
        i = i + 1;
    }
    false
}

/// The first required table that `tablas` lacks, if any.
pub fn tabla_faltante(tablas: &Vec<String>) -> (r: Option<&'static str>)
    ensures
        r == faltante(tablas_requeridas(), tablas@),
{
    let req: [&'static str; 4] = ["categorias", "productos", "ventas", "productos_vendidos"];
    assert(req@ == tablas_requeridas());
    assert(req@.subrange(0, 4) == req@);
    let mut i: usize = 0;
    while i < 4
        invariant
            i <= 4,
            req@ == tablas_requeridas(),
            faltante(tablas_requeridas(), tablas@) == faltante(req@.subrange(i as int, 4), tablas@),
        decreases 4 - i,
    {
        assert(req@.subrange(i as int, 4).subrange(1, 4 - i) == req@.subrange(i + 1, 4));
        if !lista_tiene(tablas, req[i]) {
            return Some(req[i]);
        }
        i = i + 1;
    }
    None
}

/// The next step of the validation of candidate file `ruta`, given whether it
/// exists and what has been read of it so far.
pub fn validar_importacion(
    ruta: &str,
    existe: bool,
    cabecera: &Option<Vec<u8>>,
    tablas: &Lectura<Vec<String>>,
) -> (r: PasoValidacion)
    ensures
        r == paso_validacion(
            existe,
            extension_de_ruta(ruta@),
            match cabecera {
                Some(b) => Some(b@),
                None => None,
            },
            match tablas {
                Lectura::Pendiente => Lectura::Pendiente,
                Lectura::Fallida => Lectura::Fallida,
                Lectura::Hecha(t) => Lectura::Hecha(t@),
            },
        ),
{
    if !existe {
        return PasoValidacion::Rechazar(ErrorImportacion::ArchivoNoEncontrado);
    }
    let ext = extension(ruta);
    if !extension_aceptada(&ext) {
        return PasoValidacion::Rechazar(ErrorImportacion::ExtensionInvalida);
    }
    match cabecera {
        None => PasoValidacion::LeerCabecera,
        Some(b) => {
            if !cabecera_valida(b) {
                return PasoValidacion::Rechazar(ErrorImportacion::NoEsSqlite);
            }
            match tablas {
                Lectura::Pendiente => PasoValidacion::ListarTablas,
                Lectura::Fallida => PasoValidacion::Rechazar(ErrorImportacion::BaseCorrupta),
                Lectura::Hecha(t) => match tabla_faltante(t) {
                    Some(n) => PasoValidacion::Rechazar(ErrorImportacion::FaltaTabla { tabla: n }),
                    None => PasoValidacion::Aceptar,
                },
            }
        },
    }
}

/// A file operation that a backup or an import performs on the store.
#[derive(Debug)]
pub enum Accion {
    /// Fold the write-ahead log of store `ruta` into its main file.
    Checkpoint { ruta: String },
    /// Copy store `desde` to backup file `hacia`.
    CopiarRespaldo { desde: String, hacia: String },
    /// Overwrite the active store `hacia` with the bytes of file `desde`.
    Sobrescribir { desde: String, hacia: String },
    /// Delete side file `ruta`, if there is one.
    Borrar { ruta: String },
    /// Reopen store `ruta`, running the schema migration on it.
    Reinicializar { ruta: String },
}

/// An action with its paths as character sequences.
pub enum AccionModelo {
    Checkpoint(Seq<char>),
    CopiarRespaldo(Seq<char>, Seq<char>),
    Sobrescribir(Seq<char>, Seq<char>),
    Borrar(Seq<char>),
    Reinicializar(Seq<char>),
}

impl View for Accion {
    type V = AccionModelo;

    open spec fn view(&self) -> AccionModelo {
        match self {
            Accion::Checkpoint { ruta } => AccionModelo::Checkpoint(ruta@),
            Accion::CopiarRespaldo { desde, hacia } => AccionModelo::CopiarRespaldo(desde@, hacia@),
            Accion::Sobrescribir { desde, hacia } => AccionModelo::Sobrescribir(desde@, hacia@),
            Accion::Borrar { ruta } => AccionModelo::Borrar(ruta@),
            Accion::Reinicializar { ruta } => AccionModelo::Reinicializar(ruta@),
        }
    }
}

/// One step of a plan. A failed critical step ends the operation with its
/// error; a failed step that is not critical is passed over, and the operation
/// goes on in a degraded but safe state.
#[derive(Debug)]
pub struct Paso {
    pub accion: Accion,
    pub critico: bool,
}

/// A plan as (action, critical) pairs.
pub open spec fn vista_pasos(s: Seq<Paso>) -> Seq<(AccionModelo, bool)> {
    s.map_values(|p: Paso| (p.accion@, p.critico))
}

/// Why a backup cannot start.
#[derive(Debug)]
pub enum ErrorRespaldo {
    /// The store to back up does not exist.
    BaseNoExiste,
}

/// The directory of the active store; `.` where the path has none.
pub open spec fn directorio_de(actual: Seq<char>) -> Seq<char> {
    match padre_de_ruta(actual) {
        Some(d) => d,
        None => "."@,
    }
}

/// The file name of the safety backup taken at `m`.
pub open spec fn nombre_respaldo(m: Marca) -> Seq<char> {
    "inventario_pre_import_"@ + texto_sello(m) + ".db"@
}

/// The safety backup of store `actual` taken at `m`: in the store's directory.
pub open spec fn ruta_respaldo(actual: Seq<char>, m: Marca) -> Seq<char> {
    union_de_rutas(directorio_de(actual), nombre_respaldo(m))
}

/// The steps of replacing store `actual` by the validated file `origen` at time
/// `m`: where the store exists, fold its log in and copy it to a safety backup;
/// then overwrite it, delete its stale log and shared-memory side files, and
/// reopen it.
pub open spec fn plan_reemplazo_modelo(actual: Seq<char>, origen: Seq<char>, existe: bool, m: Marca) -> Seq<(AccionModelo, bool)> {
    let resto = seq![
        (AccionModelo::Sobrescribir(origen, actual), true),
        (AccionModelo::Borrar(ruta_con_extension(actual, "db-wal"@)), false),
        (AccionModelo::Borrar(ruta_con_extension(actual, "db-shm"@)), false),
        (AccionModelo::Reinicializar(actual), true),
    ];
    if existe {
        seq![
            (AccionModelo::Checkpoint(actual), true),
            (AccionModelo::CopiarRespaldo(actual, ruta_respaldo(actual, m)), true),
        ] + resto
    } else {
        resto
    }
}

/// The number of backup copies in a plan.
pub open spec fn cuenta_respaldos(s: Seq<(AccionModelo, bool)>) -> nat
    decreases s.len(),
{
    if s.len() == 0 {
        0
    } else {
        cuenta_respaldos(s.drop_last()) + if s.last().0 is CopiarRespaldo {
            1nat
        } else {
            0nat
        }
    }
}

/// Step `k` of plan `s` runs, given the success of each earlier step: every
/// earlier step succeeded or was not critical.
pub open spec fn alcanza(s: Seq<(AccionModelo, bool)>, exitos: Seq<bool>, k: int) -> bool {
    forall|j: int| 0 <= j < k ==> exitos[j] || !s[j].1
}

/// Whether an operation goes on after step `paso` succeeded or failed.
pub fn seguir_tras(paso: &Paso, exito: bool) -> (r: bool)
    ensures
        r == (exito || !paso.critico),
{
    exito || !paso.critico
}

/// How an operation that ran its plan ended.
#[derive(Clone, Copy, PartialEq, Eq, Structural, Debug)]
pub enum Desenlace {
    /// Every step that ran succeeded.
    Completo,
    /// Some step that is not critical failed; the operation went on.
    Degradado,
}

/// The end of a run of `plan` whose steps, in order, succeeded as `exitos` says:
/// the first critical step that failed, if any; else whether some step failed.
pub open spec fn desenlace_de(plan: Seq<(AccionModelo, bool)>, exitos: Seq<bool>) -> Result<Desenlace, int> {
    if exists|k: int| 0 <= k < exitos.len() && !exitos[k] && plan[k].1 {
        Err(choose|k: int| 0 <= k < exitos.len() && !exitos[k] && plan[k].1 && forall|j: int| 0 <= j < k ==> exitos[j] || !plan[j].1)
    } else if exists|k: int| 0 <= k < exitos.len() && !exitos[k] {
        Ok(Desenlace::Degradado)
    } else {
        Ok(Desenlace::Completo)
    }
}

/// How a run of `plan` ended, given the success of each step that ran, in
/// order: `Err(k)` where critical step `k` failed, else complete or degraded.
pub fn desenlace(plan: &Vec<Paso>, exitos: &Vec<bool>) -> (r: Result<Desenlace, usize>)
    requires
        exitos@.len() <= plan@.len(),
    ensures
        match r {
            Ok(d) => desenlace_de(vista_pasos(plan@), exitos@) == Ok::<Desenlace, int>(d),
            Err(k) => desenlace_de(vista_pasos(plan@), exitos@) == Err::<Desenlace, int>(k as int),
        },
{
    let ghost v = vista_pasos(plan@);
    let mut degradado = false;
    let mut k: usize = 0;
    while k < exitos.len()
        invariant
            exitos@.len() <= plan@.len(),
            v == vista_pasos(plan@),
            k <= exitos@.len(),
            forall|j: int| 0 <= j < k ==> exitos@[j] || !v[j].1,
            degradado == exists|j: int| 0 <= j < k && !exitos@[j],
        decreases exitos@.len() - k,
    {
        assert(v[k as int].1 == plan@[k as int].critico);
        if !exitos[k] && plan[k].critico {
            proof {
                let kk = k as int;
                assert(0 <= kk < exitos@.len() && !exitos@[kk] && v[kk].1);
                let c = choose|c: int|
                    0 <= c < exitos@.len() && !exitos@[c] && v[c].1 && forall|j: int| 0 <= j < c ==> exitos@[j] || !v[j].1;
                assert(0 <= c < exitos@.len() && !exitos@[c] && v[c].1 && forall|j: int| 0 <= j < c ==> exitos@[j] || !v[j].1);
                if c < kk {
                    assert(exitos@[c] || !v[c].1);
                } else if kk < c {
                    assert(exitos@[kk] || !v[kk].1);
                }
            }
            return Err(k);
        }
        if !exitos[k] {
            degradado = true;
        }
        k = k + 1;
    }
    if degradado {
        Ok(Desenlace::Degradado)
    } else {
        Ok(Desenlace::Completo)
    }
}

/// The steps of a backup of store `actual` to `destino`: fold the log in, then
/// copy; refused where the store does not exist.
pub fn plan_respaldo(actual: &str, destino: &str, existe: bool) -> (r: Result<Vec<Paso>, ErrorRespaldo>)
    ensures
        match r {
            Ok(p) => existe && vista_pasos(p@) == seq![
                (AccionModelo::Checkpoint(actual@), true),
                (AccionModelo::CopiarRespaldo(actual@, destino@), true),
            ],
            Err(e) => !existe && e == ErrorRespaldo::BaseNoExiste,
        },
{
    if !existe {
        return Err(ErrorRespaldo::BaseNoExiste);
    }
    let mut p: Vec<Paso> = Vec::new();
    p.push(Paso { accion: Accion::Checkpoint { ruta: String::from_str(actual) }, critico: true });
    p.push(
        Paso {
            accion: Accion::CopiarRespaldo { desde: String::from_str(actual), hacia: String::from_str(destino) },
            critico: true,
        },
    );
    assert(vista_pasos(p@) =~= seq![
        (AccionModelo::Checkpoint(actual@), true),
        (AccionModelo::CopiarRespaldo(actual@, destino@), true),
    ]);
    Ok(p)
}

/// The file name of the safety backup taken at `m`.
pub fn nombre_de_respaldo(m: &Marca) -> (r: String)
    requires
        marca_valida(*m),
    ensures
        r@ == nombre_respaldo(*m),
{
    let mut s = String::from_str("inventario_pre_import_");
    let t = sello(m);
    s.append(t.as_str());
    s.append(".db");
    s
}

/// The steps that replace store `actual` by the validated file `origen`, at time
/// `m`; `existe` tells whether `actual` exists.
pub fn plan_reemplazo(actual: &str, origen: &str, existe: bool, m: &Marca) -> (r: Vec<Paso>)
    requires
        marca_valida(*m),
    ensures
        vista_pasos(r@) == plan_reemplazo_modelo(actual@, origen@, existe, *m),
{
    let mut p: Vec<Paso> = Vec::new();
    if existe {
        let dir = match padre(actual) {
            Some(d) => d,
            None => String::from_str("."),
        };
        let nombre = nombre_de_respaldo(m);
        let destino = unir(dir.as_str(), nombre.as_str());
        p.push(Paso { accion: Accion::Checkpoint { ruta: String::from_str(actual) }, critico: true });
        p.push(
            Paso { accion: Accion::CopiarRespaldo { desde: String::from_str(actual), hacia: destino }, critico: true },
        );
    }
    proof {
        reveal_strlit("db-wal");
        reveal_strlit("db-shm");
    }
    let wal = con_extension(actual, "db-wal");
    let shm = con_extension(actual, "db-shm");
    p.push(
        Paso {
            accion: Accion::Sobrescribir { desde: String::from_str(origen), hacia: String::from_str(actual) },
            critico: true,
        },
    );
    p.push(Paso { accion: Accion::Borrar { ruta: wal }, critico: false });
    p.push(Paso { accion: Accion::Borrar { ruta: shm }, critico: false });
    p.push(Paso { accion: Accion::Reinicializar { ruta: String::from_str(actual) }, critico: true });
    assert(vista_pasos(p@) =~= plan_reemplazo_modelo(actual@, origen@, existe, *m));
    p
}

/// Replacing an existing store takes exactly one safety backup, a copy of the
/// store into its own directory under a timestamped name, made before the store
/// is overwritten; as that copy is critical, the overwrite runs only where it
/// succeeded. Replacing a store that does not exist takes none.
pub proof fn ley_un_respaldo_previo(actual: Seq<char>, origen: Seq<char>, m: Marca, exitos: Seq<bool>)
    ensures
        cuenta_respaldos(plan_reemplazo_modelo(actual, origen, true, m)) == 1,
        cuenta_respaldos(plan_reemplazo_modelo(actual, origen, false, m)) == 0,
        plan_reemplazo_modelo(actual, origen, true, m)[1] == (
        AccionModelo::CopiarRespaldo(actual, union_de_rutas(directorio_de(actual), nombre_respaldo(m))),
        true),
        plan_reemplazo_modelo(actual, origen, true, m)[2] == (AccionModelo::Sobrescribir(origen, actual), true),
        alcanza(plan_reemplazo_modelo(actual, origen, true, m), exitos, 2) ==> exitos[1],
{
    let p = plan_reemplazo_modelo(actual, origen, true, m);
    let q = plan_reemplazo_modelo(actual, origen, false, m);
    assert(p.drop_last().drop_last().drop_last().drop_last().drop_last().drop_last() =~= Seq::<(AccionModelo, bool)>::empty());
    assert(q.drop_last().drop_last().drop_last().drop_last() =~= Seq::<(AccionModelo, bool)>::empty());
    assert(cuenta_respaldos(p) == 1) by {
        reveal_with_fuel(cuenta_respaldos, 7);
    }
    assert(cuenta_respaldos(q) == 0) by {
        reveal_with_fuel(cuenta_respaldos, 5);
    }
    if alcanza(p, exitos, 2) {
        assert(exitos[1] || !p[1].1);
    }
}

} // verus!
