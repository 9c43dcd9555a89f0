use vstd::prelude::*;
use crate::texto::mismo_texto;

verus! {

/// Statements that every connection to the store runs first: referential
/// integrity on, write-ahead logging on.
pub const PRAGMAS_CONEXION: &'static str = "PRAGMA foreign_keys = ON; PRAGMA journal_mode = WAL;";

/// The statement that folds the write-ahead log into the main store file, so
/// that a plain copy of that file is complete.
pub const PRAGMA_CHECKPOINT: &'static str = "PRAGMA wal_checkpoint(TRUNCATE);";

/// The full current schema, given to a store that did not exist before.
pub const ESQUEMA_INICIAL: &'static str = "CREATE TABLE IF NOT EXISTS categorias (
    id_categoria INTEGER PRIMARY KEY AUTOINCREMENT,
    nombre TEXT NOT NULL
);
CREATE TABLE IF NOT EXISTS productos (
    id_producto INTEGER PRIMARY KEY AUTOINCREMENT,
    nombre_producto TEXT NOT NULL,
    id_categoria INTEGER REFERENCES categorias(id_categoria) ON DELETE SET NULL,
    ruta_imagen TEXT,
    miniatura_base64 TEXT,
    stock INTEGER NOT NULL DEFAULT 0 CHECK (stock >= 0),
    precio REAL NOT NULL DEFAULT 0 CHECK (precio >= 0),
    creado_at TEXT,
    actualizado_at TEXT,
    activo INTEGER NOT NULL DEFAULT 1
);
CREATE TABLE IF NOT EXISTS ventas (
    id_venta INTEGER PRIMARY KEY AUTOINCREMENT,
    fecha TEXT NOT NULL,
    nombre_clienta TEXT NOT NULL,
    total_venta REAL NOT NULL,
    tipo_pago TEXT NOT NULL
);
CREATE TABLE IF NOT EXISTS productos_vendidos (
    id_producto_vendido INTEGER PRIMARY KEY AUTOINCREMENT,
    id_venta INTEGER NOT NULL REFERENCES ventas(id_venta) ON DELETE CASCADE,
    id_producto INTEGER NOT NULL,
    nombre_producto_snapshot TEXT NOT NULL DEFAULT '',
    cantidad INTEGER NOT NULL CHECK (cantidad > 0),
    precio_unitario REAL NOT NULL,
    subtotal REAL NOT NULL
);
CREATE TABLE IF NOT EXISTS perfil (
    id INTEGER PRIMARY KEY,
    nombre TEXT NOT NULL DEFAULT '',
    cargo TEXT NOT NULL DEFAULT '',
    ruta_foto TEXT,
    miniatura_base64 TEXT
);";

/// The statements that opening the store runs before its migration: the
/// connection pragmas, then, for a store that did not exist, the full schema.
pub fn sentencias_apertura(es_nueva: bool) -> (r: Vec<&'static str>)
    ensures
        r@ == if es_nueva {
            seq![PRAGMAS_CONEXION, ESQUEMA_INICIAL]
        } else {
            seq![PRAGMAS_CONEXION]
        },
{
    let mut r: Vec<&'static str> = Vec::new();
    r.push(PRAGMAS_CONEXION);
    if es_nueva {
        r.push(ESQUEMA_INICIAL);
    }
    assert(r@ =~= if es_nueva {
        seq![PRAGMAS_CONEXION, ESQUEMA_INICIAL]
    } else {
        seq![PRAGMAS_CONEXION]
    });
    r
}

/// A table as found in a store: its name and the names of its columns.
#[derive(Debug)]
pub struct TablaExistente {
    pub nombre: String,
    pub columnas: Vec<String>,
}

/// One additive schema change. With a column, it adds that column to `tabla`;
/// without one, it creates `tabla`. `sentencia` makes the change and `relleno`,
/// where present, fills the new column of existing rows right after.
#[derive(Clone, Copy, Debug)]
pub struct PasoMigracion {
    pub tabla: &'static str,
    pub columna: Option<&'static str>,
    pub sentencia: &'static str,
    pub relleno: Option<&'static str>,
}

/// What the migration steps test of a schema: which tables exist, and which
/// (table, column) pairs.
pub struct EsquemaModelo {
    pub tablas: Set<Seq<char>>,
    pub columnas: Set<(Seq<char>, Seq<char>)>,
}

/// The schema of a store, from the tables found in it.
pub open spec fn modelo(e: Seq<TablaExistente>) -> EsquemaModelo {
    EsquemaModelo {
        tablas: Set::new(|t: Seq<char>| exists|i: int| 0 <= i < e.len() && e[i].nombre@ == t),
        columnas: Set::new(
            |p: (Seq<char>, Seq<char>)|
                exists|i: int, j: int|
                    0 <= i < e.len() && 0 <= j < e[i].columnas@.len() && e[i].nombre@ == p.0
                        && e[i].columnas@[j]@ == p.1,
        ),
    }
}

/// The target of step `p` is already in schema `m`.
pub open spec fn presente(m: EsquemaModelo, p: PasoMigracion) -> bool {
    match p.columna {
        Some(c) => m.columnas.contains((p.tabla@, c@)),
        None => m.tablas.contains(p.tabla@),
    }
}

/// Schema `m` after step `p` runs. Adding a column to a table that does not
/// exist fails and changes nothing.
pub open spec fn aplicar(m: EsquemaModelo, p: PasoMigracion) -> EsquemaModelo {
    match p.columna {
        Some(c) => if m.tablas.contains(p.tabla@) {
            EsquemaModelo { tablas: m.tablas, columnas: m.columnas.insert((p.tabla@, c@)) }
        } else {
            m
        },
        None => EsquemaModelo { tablas: m.tablas.insert(p.tabla@), columnas: m.columnas },
    }
}

/// Schema `m` after steps `ps` run in order.
pub open spec fn aplicar_todos(m: EsquemaModelo, ps: Seq<PasoMigracion>) -> EsquemaModelo
    decreases ps.len(),
{
    if ps.len() == 0 {
        m
    } else {
        aplicar(aplicar_todos(m, ps.drop_last()), ps.last())
    }
}

/// The steps of `ps` whose target is absent from `m`, in their order.
pub open spec fn pendientes(m: EsquemaModelo, ps: Seq<PasoMigracion>) -> Seq<PasoMigracion>
    decreases ps.len(),
{
    if ps.len() == 0 {
        Seq::empty()
    } else if presente(m, ps.last()) {
        pendientes(m, ps.drop_last())
    } else {
        pendientes(m, ps.drop_last()).push(ps.last())
    }
}

/// The migration steps, oldest first: the thumbnail column of products, the
/// name snapshot of sold items (filled from the product's current name), the
/// active flag of products, and the profile table.
pub fn pasos_migracion() -> (r: Vec<PasoMigracion>)
    ensures
        r@.len() == 4,
        r@[0].tabla@ == "productos"@,
        r@[0].columna == Some("miniatura_base64"),
        r@[0].sentencia@ == "ALTER TABLE productos ADD COLUMN miniatura_base64 TEXT"@,
        r@[0].relleno is None,
        r@[1].tabla@ == "productos_vendidos"@,
        r@[1].columna == Some("nombre_producto_snapshot"),
        r@[1].sentencia@
            == "ALTER TABLE productos_vendidos ADD COLUMN nombre_producto_snapshot TEXT NOT NULL DEFAULT ''"@,
        r@[1].relleno == Some(
            "UPDATE productos_vendidos SET nombre_producto_snapshot = (SELECT nombre_producto FROM productos WHERE productos.id_producto = productos_vendidos.id_producto) WHERE nombre_producto_snapshot = ''",
        ),
        r@[2].tabla@ == "productos"@,
        r@[2].columna == Some("activo"),
        r@[2].sentencia@ == "ALTER TABLE productos ADD COLUMN activo INTEGER NOT NULL DEFAULT 1"@,
        r@[2].relleno is None,
        r@[3].tabla@ == "perfil"@,
        r@[3].columna is None,
        r@[3].sentencia@
            == "CREATE TABLE IF NOT EXISTS perfil (id INTEGER PRIMARY KEY, nombre TEXT NOT NULL DEFAULT '', cargo TEXT NOT NULL DEFAULT '', ruta_foto TEXT, miniatura_base64 TEXT)"@,
        r@[3].relleno is None,
        objetivos_distintos(r@),
{
    proof {
        reveal_strlit("productos");
        reveal_strlit("productos_vendidos");
        reveal_strlit("miniatura_base64");
        reveal_strlit("activo");
    }
    let mut r: Vec<PasoMigracion> = Vec::new();
    r.push(
        PasoMigracion {
            tabla: "productos",
            columna: Some("miniatura_base64"),
            sentencia: "ALTER TABLE productos ADD COLUMN miniatura_base64 TEXT",
            relleno: None,
        },
    );
    r.push(
        PasoMigracion {
            tabla: "productos_vendidos",
            columna: Some("nombre_producto_snapshot"),
            sentencia: "ALTER TABLE productos_vendidos ADD COLUMN nombre_producto_snapshot TEXT NOT NULL DEFAULT ''",
            relleno: Some(
                "UPDATE productos_vendidos SET nombre_producto_snapshot = (SELECT nombre_producto FROM productos WHERE productos.id_producto = productos_vendidos.id_producto) WHERE nombre_producto_snapshot = ''",
            ),
        },
    );
    r.push(
        PasoMigracion {
            tabla: "productos",
            columna: Some("activo"),
            sentencia: "ALTER TABLE productos ADD COLUMN activo INTEGER NOT NULL DEFAULT 1",
            relleno: None,
        },
    );
    r.push(
        PasoMigracion {
            tabla: "perfil",
            columna: None,
            sentencia: "CREATE TABLE IF NOT EXISTS perfil (id INTEGER PRIMARY KEY, nombre TEXT NOT NULL DEFAULT '', cargo TEXT NOT NULL DEFAULT '', ruta_foto TEXT, miniatura_base64 TEXT)",
            relleno: None,
        },
    );
    assert("productos"@.len() != "productos_vendidos"@.len());
    assert("miniatura_base64"@.len() != "activo"@.len());
    assert(objetivos_distintos(r@)) by {
        assert forall|a: int, b: int| 0 <= a < b < r@.len() implies !mismo_objetivo(#[trigger] r@[a], #[trigger] r@[b]) by {
            if a == 0 && b == 2 {
                assert(r@[0].columna->0@ != r@[2].columna->0@);
            } else if b != 3 {
                assert(r@[a].tabla@ != r@[b].tabla@);
            }
        }
    }
    r
}

/// Whether the store holds table `t`.
pub fn tiene_tabla(esquema: &Vec<TablaExistente>, t: &str) -> (r: bool)
    ensures
        r == modelo(esquema@).tablas.contains(t@),
{
    let mut i: usize = 0;
    while i < esquema.len()
        invariant
            i <= esquema@.len(),
            forall|k: int| 0 <= k < i ==> esquema@[k].nombre@ != t@,
        decreases esquema@.len() - i,
    {
        if mismo_texto(esquema[i].nombre.as_str(), t) {
            assert(modelo(esquema@).tablas.contains(t@)) by {
                assert(esquema@[i as int].nombre@ == t@);
            }
            return true;
        }
        i = i + 1;
    }
    false
}

/// Whether the store's table `t` has column `c`.
pub fn tiene_columna(esquema: &Vec<TablaExistente>, t: &str, c: &str) -> (r: bool)
    ensures
        r == modelo(esquema@).columnas.contains((t@, c@)),
{
    let mut i: usize = 0;
    while i < esquema.len()
        invariant
            i <= esquema@.len(),
            forall|k: int, j: int|
                0 <= k < i && 0 <= j < esquema@[k].columnas@.len() ==> !(esquema@[k].nombre@ == t@
                    && (#[trigger] esquema@[k].columnas@[j])@ == c@),
        decreases esquema@.len() - i,
    {
        if mismo_texto(esquema[i].nombre.as_str(), t) {
            let cols = &esquema[i].columnas;
            let mut j: usize = 0;
            while j < cols.len()
                invariant
                    i < esquema@.len(),
                    cols == &esquema@[i as int].columnas,
                    esquema@[i as int].nombre@ == t@,
                    j <= cols@.len(),
                    forall|k: int, jj: int|
                        0 <= k < i && 0 <= jj < esquema@[k].columnas@.len() ==> !(esquema@[k].nombre@ == t@
                            && (#[trigger] esquema@[k].columnas@[jj])@ == c@),
                    forall|jj: int| 0 <= jj < j ==> (#[trigger] cols@[jj])@ != c@,
                decreases cols@.len() - j,
            {
                if mismo_texto(cols[j].as_str(), c) {
                    assert(modelo(esquema@).columnas.contains((t@, c@))) by {
                        assert(esquema@[i as int].columnas@[j as int]@ == c@);
                    }
                    return true;
                }
                j = j + 1;
            }
        }
        i = i + 1;
    }
    false
}

/// Whether step `paso` still has to run on the store: its target is absent.
pub fn paso_pendiente(esquema: &Vec<TablaExistente>, paso: &PasoMigracion) -> (r: bool)
    ensures
        r == !presente(modelo(esquema@), *paso),
{
    match paso.columna {
        Some(c) => !tiene_columna(esquema, paso.tabla, c),
        None => !tiene_tabla(esquema, paso.tabla),
    }
}

/// The steps of `pasos` that the store still needs, in their order: each one
/// whose target the store lacks.
pub fn planificar_migracion(pasos: &Vec<PasoMigracion>, esquema: &Vec<TablaExistente>) -> (r: Vec<PasoMigracion>)
    ensures
        r@ == pendientes(modelo(esquema@), pasos@),
{
    let ghost m = modelo(esquema@);
    let mut r: Vec<PasoMigracion> = Vec::new();
    let mut k: usize = 0;
    while k < pasos.len()
        invariant
            k <= pasos@.len(),
            m == modelo(esquema@),
            r@ == pendientes(m, pasos@.subrange(0, k as int)),
        decreases pasos@.len() - k,
    {
        let paso = pasos[k];
        let pendiente = paso_pendiente(esquema, &paso);
        assert(pasos@.subrange(0, k + 1).drop_last() == pasos@.subrange(0, k as int));
        if pendiente {
            r.push(paso);
        }
        k = k + 1;
    }
    assert(pasos@.subrange(0, pasos@.len() as int) == pasos@);
    r
}

proof fn lema_aplicar_crece(m: EsquemaModelo, ps: Seq<PasoMigracion>)
    ensures
        m.tablas.subset_of(aplicar_todos(m, ps).tablas),
        m.columnas.subset_of(aplicar_todos(m, ps).columnas),
    decreases ps.len(),
{
    if ps.len() > 0 {
        lema_aplicar_crece(m, ps.drop_last());
    }
}

proof fn lema_todo_presente(m: EsquemaModelo, ps: Seq<PasoMigracion>)
    requires
        forall|k: int| 0 <= k < ps.len() && (#[trigger] ps[k]).columna is Some ==> m.tablas.contains(ps[k].tabla@),
    ensures
        forall|k: int| 0 <= k < ps.len() ==> presente(aplicar_todos(m, pendientes(m, ps)), #[trigger] ps[k]),
    decreases ps.len(),
{
    if ps.len() > 0 {
        let ant = ps.drop_last();
        assert forall|k: int| 0 <= k < ant.len() && (#[trigger] ant[k]).columna is Some implies m.tablas.contains(ant[k].tabla@) by {
            assert(ant[k] == ps[k]);
        }
        lema_todo_presente(m, ant);
        let p = ps.last();
        let x = aplicar_todos(m, pendientes(m, ant));
        lema_aplicar_crece(m, pendientes(m, ant));
        if presente(m, p) {
            assert forall|k: int| 0 <= k < ps.len() implies presente(aplicar_todos(m, pendientes(m, ps)), #[trigger] ps[k]) by {
                if k < ant.len() {
                    assert(ant[k] == ps[k]);
                }
            }
        } else {
            let pend = pendientes(m, ps);
            assert(pend.drop_last() == pendientes(m, ant));
            assert(aplicar_todos(m, pend) == aplicar(x, p));
            assert forall|k: int| 0 <= k < ps.len() implies presente(aplicar_todos(m, pendientes(m, ps)), #[trigger] ps[k]) by {
                if k < ant.len() {
                    assert(ant[k] == ps[k]);
                    assert(presente(x, ant[k]));
                    assert(x.tablas.subset_of(aplicar(x, p).tablas));
                    assert(x.columnas.subset_of(aplicar(x, p).columnas));
                } else {
                    assert(ps[k] == p);
                    if p.columna is Some {
                        assert(m.tablas.contains(p.tabla@));
                    }
                }
            }
        }
    }
}

proof fn lema_nada_pendiente(m: EsquemaModelo, ps: Seq<PasoMigracion>)
    requires
        forall|k: int| 0 <= k < ps.len() ==> presente(m, #[trigger] ps[k]),
    ensures
        pendientes(m, ps).len() == 0,
    decreases ps.len(),
{
    if ps.len() > 0 {
        let ant = ps.drop_last();
        assert forall|k: int| 0 <= k < ant.len() implies presente(m, #[trigger] ant[k]) by {
            assert(ant[k] == ps[k]);
        }
        lema_nada_pendiente(m, ant);
        assert(presente(m, ps[ps.len() - 1]));
    }
}

/// Running the migration twice in a row is the same as running it once: on the
/// schema that a first run leaves, no step is pending, so a second run applies
/// nothing and leaves the schema as it is. This holds of any store whose tables
/// that steps add columns to exist.
pub proof fn ley_migracion_idempotente(m: EsquemaModelo, pasos: Seq<PasoMigracion>)
    requires
        forall|k: int| 0 <= k < pasos.len() && (#[trigger] pasos[k]).columna is Some ==> m.tablas.contains(pasos[k].tabla@),
    ensures
        pendientes(aplicar_todos(m, pendientes(m, pasos)), pasos).len() == 0,
        aplicar_todos(
            aplicar_todos(m, pendientes(m, pasos)),
            pendientes(aplicar_todos(m, pendientes(m, pasos)), pasos),
        ) == aplicar_todos(m, pendientes(m, pasos)),
{
    lema_todo_presente(m, pasos);
    let m1 = aplicar_todos(m, pendientes(m, pasos));
    lema_nada_pendiente(m1, pasos);
}

/// Steps `p` and `q` target the same table, or the same column of a table.
pub open spec fn mismo_objetivo(p: PasoMigracion, q: PasoMigracion) -> bool {
    &&& p.tabla@ == q.tabla@
    &&& match (p.columna, q.columna) {
        (Some(a), Some(b)) => a@ == b@,
        (None, None) => true,
        _ => false,
    }
}

/// No two of steps `ps` target the same table or column.
pub open spec fn objetivos_distintos(ps: Seq<PasoMigracion>) -> bool {
    forall|a: int, b: int| 0 <= a < b < ps.len() ==> !mismo_objetivo(#[trigger] ps[a], #[trigger] ps[b])
}

proof fn lema_pendientes_vienen_de(m: EsquemaModelo, ps: Seq<PasoMigracion>)
    ensures
        forall|k: int|
            0 <= k < pendientes(m, ps).len() ==> exists|j: int| 0 <= j < ps.len() && #[trigger] pendientes(m, ps)[k] == ps[j],
    decreases ps.len(),
{
    if ps.len() > 0 {
        let ant = ps.drop_last();
        lema_pendientes_vienen_de(m, ant);
        assert forall|k: int| 0 <= k < pendientes(m, ps).len() implies exists|j: int|
            0 <= j < ps.len() && #[trigger] pendientes(m, ps)[k] == ps[j] by {
            if k < pendientes(m, ant).len() {
                let j = choose|j: int| 0 <= j < ant.len() && pendientes(m, ant)[k] == ant[j];
                assert(pendientes(m, ps)[k] == ps[j]);
            } else {
                assert(pendientes(m, ps)[k] == ps[ps.len() - 1]);
            }
        }
    }
}

/// A migration run never adds a column or table twice: every step it runs
/// targets a column or table that the store lacks, and, where the steps target
/// distinct columns and tables, no two steps it runs target the same one.
pub proof fn ley_migracion_sin_duplicados(m: EsquemaModelo, pasos: Seq<PasoMigracion>)
    requires
        objetivos_distintos(pasos),
    ensures
        forall|k: int| 0 <= k < pendientes(m, pasos).len() ==> !presente(m, #[trigger] pendientes(m, pasos)[k]),
        objetivos_distintos(pendientes(m, pasos)),
    decreases pasos.len(),
{
    if pasos.len() > 0 {
        let ant = pasos.drop_last();
        assert(objetivos_distintos(ant)) by {
            assert forall|a: int, b: int| 0 <= a < b < ant.len() implies !mismo_objetivo(#[trigger] ant[a], #[trigger] ant[b]) by {
                assert(ant[a] == pasos[a] && ant[b] == pasos[b]);
            }
        }
        ley_migracion_sin_duplicados(m, ant);
        lema_pendientes_vienen_de(m, ant);
        let pa = pendientes(m, ant);
        let p = pasos.last();
        if !presente(m, p) {
            let pp = pendientes(m, pasos);
            assert(pp == pa.push(p));
            assert forall|a: int, b: int| 0 <= a < b < pp.len() implies !mismo_objetivo(#[trigger] pp[a], #[trigger] pp[b]) by {
                if b < pa.len() {
                    assert(pp[a] == pa[a] && pp[b] == pa[b]);
                } else {
                    let j = choose|j: int| 0 <= j < ant.len() && pa[a] == ant[j];
                    assert(pasos[j] == ant[j]);
                    assert(!mismo_objetivo(pasos[j], pasos[pasos.len() - 1]));
                }
            }
            assert forall|k: int| 0 <= k < pp.len() implies !presente(m, #[trigger] pp[k]) by {
                if k < pa.len() {
                    assert(pp[k] == pa[k]);
                }
            }
        }
    }
}

} // verus!
