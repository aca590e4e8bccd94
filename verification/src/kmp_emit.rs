//! The Kotlin Multiplatform project: the common surface, one actual per
//! platform source set, and the Gradle files around them.
//!
//! The common surface declares what every platform shares (custom type
//! aliases, records, C-style enums and `expect` functions); each JVM-family
//! platform gets an `actual` file that converts to and from the internal
//! JVM bindings.

use vstd::prelude::*;
use vstd::string::*;

use crate::defs::{CustomTypeDef, EnumDef, FfiContract, FunctionDef, RecordDef, TypeCatalog};
use crate::kmp_decls::{common_enum_text, common_function_text, jvm_function_actual_text, params_walk_end};
use crate::kmp_names::{join_kotlin_sections, kept_sections};
use crate::custom_chains::walks;
use crate::kmp_render::{common_record_text, custom_type_text, fields_walk_end, record_conversions_text, return_walks_end};
use crate::kmp_support::{
    custom_ids_distinct, enum_ids_distinct, function_ok_in, function_supported, kmp_enum_set, kmp_type_ok, least_customs, least_records,
    lemma_supported_record_fields, lemma_supported_types_walk, record_fields_ok, record_ids_distinct, KmpSurfaceSupport,
};
use crate::defs::ReturnDef;
use crate::paths::{join_path, path_join};
use crate::text::{decimal_nat, join_strings, joined, push_char, push_decimal};

verus! {

/// Renders the Kotlin Multiplatform project of a contract.
pub struct KMPEmitter;

/// How a platform's actuals are produced.
#[derive(Debug, Clone, Copy, PartialEq, Eq)]
pub enum KmpActualBackend {
    /// Actuals that delegate to the internal Kotlin/JVM bindings.
    KotlinJvm,
}

/// A platform source set of the project and how its actuals are made.
#[derive(Debug, Clone, Copy, PartialEq, Eq)]
pub struct KmpPlatformAdapter {
    pub source_set: &'static str,
    pub actual_file_suffix: &'static str,
    pub backend: KmpActualBackend,
}

impl KmpPlatformAdapter {
    /// The desktop JVM source set.
    pub fn jvm() -> (res: Self)
        ensures
            res.source_set@ == "jvmMain"@,
            res.actual_file_suffix@ == "JvmActual"@,
            res.backend == KmpActualBackend::KotlinJvm,
    {
        KmpPlatformAdapter { source_set: "jvmMain", actual_file_suffix: "JvmActual", backend: KmpActualBackend::KotlinJvm }
    }

    /// The Android source set.
    pub fn android() -> (res: Self)
        ensures
            res.source_set@ == "androidMain"@,
            res.actual_file_suffix@ == "AndroidActual"@,
            res.backend == KmpActualBackend::KotlinJvm,
    {
        KmpPlatformAdapter { source_set: "androidMain", actual_file_suffix: "AndroidActual", backend: KmpActualBackend::KotlinJvm }
    }
}

/// The actual file of one platform.
pub struct KmpPlatformActual {
    pub adapter: KmpPlatformAdapter,
    pub contents: String,
}

/// The common surface and the actual of each platform.
pub struct KmpRender {
    pub common: String,
    pub platform_actuals: Vec<KmpPlatformActual>,
}

/// The texts of a vector of strings.
pub open spec fn string_views(v: Seq<String>) -> Seq<Seq<char>> {
    v.map_values(|s: String| s@)
}

/// The two lines every generated Kotlin file starts with.
pub open spec fn header_sections(pkg: Seq<char>) -> Seq<Seq<char>> {
    seq!["// Auto-generated by BoltFFI. Do not edit."@, "package "@ + pkg]
}

/// A Kotlin file made of `sections`: each trimmed, the empty ones dropped,
/// the rest separated by a blank line, with a final newline.
pub open spec fn kotlin_file(sections: Seq<Seq<char>>) -> Seq<char> {
    joined(kept_sections(sections), "\n\n"@) + "\n"@
}

/// The aliases of the supported custom types, in catalog order.
pub open spec fn custom_sections(customs: Seq<CustomTypeDef>, cs: Set<Seq<char>>) -> Seq<Seq<char>>
    decreases customs.len(),
{
    if customs.len() == 0 {
        Seq::empty()
    } else {
        let rest = custom_sections(customs.drop_last(), cs);
        if cs.contains(customs.last().id@) {
            rest.push(custom_type_text(customs.last()))
        } else {
            rest
        }
    }
}

/// The declarations of the supported records, in catalog order.
pub open spec fn record_sections(records: Seq<RecordDef>, rs: Set<Seq<char>>) -> Seq<Seq<char>>
    decreases records.len(),
{
    if records.len() == 0 {
        Seq::empty()
    } else {
        let rest = record_sections(records.drop_last(), rs);
        if rs.contains(records.last().id@) {
            rest.push(common_record_text(records.last()))
        } else {
            rest
        }
    }
}

/// The declarations of the supported enums, in catalog order.
pub open spec fn enum_sections(enums: Seq<EnumDef>, es: Set<Seq<char>>) -> Seq<Seq<char>>
    decreases enums.len(),
{
    if enums.len() == 0 {
        Seq::empty()
    } else {
        let rest = enum_sections(enums.drop_last(), es);
        if es.contains(enums.last().id@) {
            rest.push(common_enum_text(enums.last()))
        } else {
            rest
        }
    }
}

/// The `expect` declarations of the supported functions, in order.
pub open spec fn function_sections(fns: Seq<FunctionDef>, rs: Set<Seq<char>>, es: Set<Seq<char>>, cs: Set<Seq<char>>) -> Seq<Seq<char>>
    decreases fns.len(),
{
    if fns.len() == 0 {
        Seq::empty()
    } else {
        let rest = function_sections(fns.drop_last(), rs, es, cs);
        if function_ok_in(fns.last(), rs, es, cs) {
            rest.push(common_function_text(fns.last()))
        } else {
            rest
        }
    }
}

/// The ids of the functions the surface cannot expose, in order.
pub open spec fn unsupported_ids(fns: Seq<FunctionDef>, rs: Set<Seq<char>>, es: Set<Seq<char>>, cs: Set<Seq<char>>) -> Seq<Seq<char>>
    decreases fns.len(),
{
    if fns.len() == 0 {
        Seq::empty()
    } else {
        let rest = unsupported_ids(fns.drop_last(), rs, es, cs);
        if function_ok_in(fns.last(), rs, es, cs) {
            rest
        } else {
            rest.push(fns.last().id@)
        }
    }
}

/// A comment naming the functions left out, when there are any.
pub open spec fn unsupported_note(ids: Seq<Seq<char>>) -> Seq<Seq<char>> {
    if ids.len() == 0 {
        Seq::empty()
    } else {
        seq!["// Unsupported in the initial KMP generator slice: "@ + joined(ids, ", "@)]
    }
}

/// The sections of the common surface: the header, then the supported
/// custom types, records, enums and functions, then the note on the
/// functions left out.
pub open spec fn common_surface_sections(
    contract: FfiContract,
    pkg: Seq<char>,
    rs: Set<Seq<char>>,
    es: Set<Seq<char>>,
    cs: Set<Seq<char>>,
) -> Seq<Seq<char>> {
    header_sections(pkg) + custom_sections(contract.catalog.customs@, cs) + record_sections(contract.catalog.records@, rs) + enum_sections(
        contract.catalog.enums@,
        es,
    ) + function_sections(contract.functions@, rs, es, cs) + unsupported_note(unsupported_ids(contract.functions@, rs, es, cs))
}

/// The conversions of the supported records, in catalog order.
pub open spec fn conversion_sections(cat: TypeCatalog, records: Seq<RecordDef>, rs: Set<Seq<char>>, ipkg: Seq<char>) -> Seq<Seq<char>>
    decreases records.len(),
{
    if records.len() == 0 {
        Seq::empty()
    } else {
        let rest = conversion_sections(cat, records.drop_last(), rs, ipkg);
        if rs.contains(records.last().id@) {
            rest.push(record_conversions_text(cat, records.last(), ipkg))
        } else {
            rest
        }
    }
}

/// The JVM actuals of the supported functions, in order.
pub open spec fn actual_function_sections(
    cat: TypeCatalog,
    fns: Seq<FunctionDef>,
    rs: Set<Seq<char>>,
    es: Set<Seq<char>>,
    cs: Set<Seq<char>>,
    ipkg: Seq<char>,
) -> Seq<Seq<char>>
    decreases fns.len(),
{
    if fns.len() == 0 {
        Seq::empty()
    } else {
        let rest = actual_function_sections(cat, fns.drop_last(), rs, es, cs, ipkg);
        if function_ok_in(fns.last(), rs, es, cs) {
            rest.push(jvm_function_actual_text(cat, fns.last(), ipkg))
        } else {
            rest
        }
    }
}

/// The sections of a JVM actual file: the header, the record conversions,
/// then the function actuals.
pub open spec fn jvm_actual_sections(
    contract: FfiContract,
    pkg: Seq<char>,
    ipkg: Seq<char>,
    rs: Set<Seq<char>>,
    es: Set<Seq<char>>,
    cs: Set<Seq<char>>,
) -> Seq<Seq<char>> {
    header_sections(pkg) + conversion_sections(contract.catalog, contract.catalog.records@, rs, ipkg) + actual_function_sections(
        contract.catalog,
        contract.functions@,
        rs,
        es,
        cs,
        ipkg,
    )
}

/// What rendering under the sets needs: a supported enum id names only
/// C-style enums, and the custom walks of supported records and functions
/// end.
pub open spec fn surface_ready(contract: FfiContract, rs: Set<Seq<char>>, es: Set<Seq<char>>, cs: Set<Seq<char>>) -> bool {
    let cat = contract.catalog;
    &&& forall|i: int| 0 <= i < cat.enums@.len() && es.contains(#[trigger] cat.enums@[i].id@) ==> cat.enums@[i].repr is CStyle
    &&& forall|i: int| 0 <= i < cat.records@.len() && rs.contains(#[trigger] cat.records@[i].id@) ==> fields_walk_end(cat, cat.records@[i].fields@)
    &&& forall|i: int| 0 <= i < contract.functions@.len() && function_ok_in(#[trigger] contract.functions@[i], rs, es, cs) ==> params_walk_end(
        cat,
        contract.functions@[i].params@,
    ) && return_walks_end(cat, contract.functions@[i].returns)
}

/// The supported records of a contract.
pub open spec fn kmp_records(contract: FfiContract) -> Set<Seq<char>> {
    least_records(contract.catalog, kmp_enum_set(contract.catalog))
}

/// The supported custom types of a contract.
pub open spec fn kmp_customs(contract: FfiContract) -> Set<Seq<char>> {
    least_customs(contract.catalog, kmp_records(contract), kmp_enum_set(contract.catalog))
}

/// What rendering a contract needs, under the sets the contract supports.
pub open spec fn kmp_ready(contract: FfiContract) -> bool {
    surface_ready(contract, kmp_records(contract), kmp_enum_set(contract.catalog), kmp_customs(contract))
}

/// The pieces of a dotted package name, split at every dot.
pub open spec fn dot_parts(s: Seq<char>) -> Seq<Seq<char>>
    decreases s.len(),
{
    if s.len() == 0 {
        seq![Seq::empty()]
    } else {
        let parts = dot_parts(s.drop_last());
        if s.last() == '.' {
            parts.push(Seq::empty())
        } else {
            parts.update(parts.len() - 1, parts.last().push(s.last()))
        }
    }
}

/// The pieces pushed one after the other onto an empty path; see
/// [`path_join`]: an absolute piece replaces what came before, and an
/// empty one leaves a trailing slash.
pub open spec fn pieces_path(parts: Seq<Seq<char>>) -> Seq<char>
    decreases parts.len(),
{
    if parts.len() == 0 {
        Seq::empty()
    } else {
        path_join(pieces_path(parts.drop_last()), parts.last())
    }
}

/// The relative path of a package: its dotted pieces collected into a
/// path.
pub open spec fn package_dirs(pkg: Seq<char>) -> Seq<char> {
    pieces_path(dot_parts(pkg))
}

/// The Kotlin source directory of a package path in a source set.
pub open spec fn kotlin_dir(source_set: Seq<char>, package_path: Seq<char>) -> Seq<char> {
    path_join("src/"@ + source_set + "/kotlin"@, package_path)
}

/// A package name always splits into at least one piece.
pub proof fn lemma_dot_parts_nonempty(s: Seq<char>)
    ensures
        dot_parts(s).len() >= 1,
    decreases s.len(),
{
    if s.len() > 0 {
        lemma_dot_parts_nonempty(s.drop_last());
    }
}

/// The Gradle build script of the project, before the package name.
pub const BUILD_GRADLE_HEAD: &'static str = "import org.jetbrains.kotlin.gradle.dsl.JvmTarget\n\nplugins {\n    kotlin(\"multiplatform\") version \"2.3.21\"\n    id(\"com.android.library\") version \"8.5.2\"\n}\n\nkotlin {\n    jvm {\n        compilerOptions {\n            jvmTarget.set(JvmTarget.JVM_1_8)\n        }\n    }\n\n    androidTarget {\n        compilerOptions {\n            jvmTarget.set(JvmTarget.JVM_1_8)\n        }\n    }\n\n    sourceSets {\n        commonMain.dependencies {\n            implementation(\"org.jetbrains.kotlinx:kotlinx-coroutines-core:1.11.0\")\n        }\n    }\n}\n\nandroid {\n    namespace = \"";

/// The Gradle build script between the package name and the minimum SDK.
pub const BUILD_GRADLE_MIDDLE: &'static str = "\"\n    compileSdk = 35\n\n    defaultConfig {\n        minSdk = ";

/// The Gradle build script after the minimum SDK.
pub const BUILD_GRADLE_TAIL: &'static str = "\n    }\n\n    compileOptions {\n        sourceCompatibility = JavaVersion.VERSION_1_8\n        targetCompatibility = JavaVersion.VERSION_1_8\n    }\n}\n";

/// The Gradle settings of the project, before the project name.
pub const SETTINGS_GRADLE_HEAD: &'static str = "pluginManagement {\n    repositories {\n        google()\n        mavenCentral()\n        gradlePluginPortal()\n    }\n}\n\ndependencyResolutionManagement {\n    repositoriesMode.set(RepositoriesMode.FAIL_ON_PROJECT_REPOS)\n    repositories {\n        google()\n        mavenCentral()\n    }\n}\n\nrootProject.name = \"";

/// The Gradle settings after the project name.
pub const SETTINGS_GRADLE_TAIL: &'static str = "-kmp\"\n";

/// The build script: Kotlin Multiplatform with JVM and Android targets,
/// the Android namespace set to the package and the minimum SDK given.
pub open spec fn build_gradle_text(pkg: Seq<char>, min_sdk: nat) -> Seq<char> {
    BUILD_GRADLE_HEAD@ + pkg + BUILD_GRADLE_MIDDLE@ + decimal_nat(min_sdk) + BUILD_GRADLE_TAIL@
}

/// The settings: plugin and dependency repositories, and the root project
/// named after `lowered` with `-kmp` appended.
pub open spec fn settings_gradle_text(lowered: Seq<char>) -> Seq<char> {
    SETTINGS_GRADLE_HEAD@ + lowered + SETTINGS_GRADLE_TAIL@
}

/// What `str::to_lowercase` returns for a string.
pub uninterp spec fn unicode_lowercase(s: Seq<char>) -> Seq<char>;

/// Calls `str::to_lowercase`, the Unicode lowercase mapping of std; the
/// result is only named, by [`unicode_lowercase`], as a function of the
/// text.
#[verifier::external_body]
fn str_to_lowercase(s: &str) -> (res: String)
    ensures
        res@ == unicode_lowercase(s@),
{
    s.to_lowercase()
}

/// The project files in order: settings, build script, common surface,
/// the actual of each platform, the internal JVM sources of each platform,
/// and the JNI glue of each platform.
pub open spec fn kmp_project_files(
    contract: FfiContract,
    pkg: Seq<char>,
    module: Seq<char>,
    min_sdk: nat,
    jvm_source: Seq<char>,
    jni_source: Seq<char>,
) -> Seq<(Seq<char>, Seq<char>)> {
    let ipkg = pkg + ".jvm"@;
    let rs = kmp_records(contract);
    let es = kmp_enum_set(contract.catalog);
    let cs = kmp_customs(contract);
    let actual = kotlin_file(jvm_actual_sections(contract, pkg, ipkg, rs, es, cs));
    let adapters = default_adapter_views();
    seq![
        ("settings.gradle.kts"@, settings_gradle_text(unicode_lowercase(module))),
        ("build.gradle.kts"@, build_gradle_text(pkg, min_sdk)),
        (path_join(kotlin_dir("commonMain"@, package_dirs(pkg)), module + ".kt"@), kotlin_file(common_surface_sections(contract, pkg, rs, es, cs))),
    ] + adapters.map_values(
        |a: (Seq<char>, Seq<char>)| (path_join(kotlin_dir(a.0, package_dirs(pkg)), module + a.1 + ".kt"@), actual),
    ) + adapters.map_values(
        |a: (Seq<char>, Seq<char>)| (path_join(kotlin_dir(a.0, package_dirs(ipkg)), module + ".kt"@), jvm_source),
    ) + adapters.map_values(|a: (Seq<char>, Seq<char>)| ("src/"@ + a.0 + "/c/jni_glue.c"@, jni_source))
}

/// The source set and actual-file suffix of each adapter.
pub open spec fn adapter_views(adapters: Seq<KmpPlatformAdapter>) -> Seq<(Seq<char>, Seq<char>)> {
    adapters.map_values(|a: KmpPlatformAdapter| (a.source_set@, a.actual_file_suffix@))
}

/// The desktop JVM source set, then Android.
pub open spec fn default_adapter_views() -> Seq<(Seq<char>, Seq<char>)> {
    seq![("jvmMain"@, "JvmActual"@), ("androidMain"@, "AndroidActual"@)]
}

/// The path and contents of each file.
pub open spec fn file_views(files: Seq<KMPOutputFile>) -> Seq<(Seq<char>, Seq<char>)> {
    files.map_values(|f: KMPOutputFile| (f.relative_path@, f.contents@))
}

/// Options of the Kotlin Multiplatform project.
pub struct KMPOptions {
    pub package_name: String,
    pub module_name: String,
    pub min_sdk: u32,
}

/// One generated file, by its path relative to the project root.
#[derive(Debug, Clone, PartialEq, Eq)]
pub struct KMPOutputFile {
    pub relative_path: String,
    pub contents: String,
}

/// Every generated file of the project.
#[derive(Debug, Clone, PartialEq, Eq)]
pub struct KMPOutput {
    pub files: Vec<KMPOutputFile>,
}

/// Every function of a contract is accounted for on the common surface:
/// declared when supported, named in the unsupported note otherwise.
pub proof fn lemma_every_function_accounted(fns: Seq<FunctionDef>, rs: Set<Seq<char>>, es: Set<Seq<char>>, cs: Set<Seq<char>>)
    ensures
        function_sections(fns, rs, es, cs).len() + unsupported_ids(fns, rs, es, cs).len() == fns.len(),
        forall|i: int|
            0 <= i < fns.len() && !function_ok_in(#[trigger] fns[i], rs, es, cs) ==> unsupported_ids(fns, rs, es, cs).contains(fns[i].id@),
    decreases fns.len(),
{
    if fns.len() > 0 {
        let rest = fns.drop_last();
        lemma_every_function_accounted(rest, rs, es, cs);
        assert forall|i: int| 0 <= i < fns.len() && !function_ok_in(#[trigger] fns[i], rs, es, cs) implies unsupported_ids(
            fns,
            rs,
            es,
            cs,
        ).contains(fns[i].id@) by {
            if i < fns.len() - 1 {
                assert(rest[i] == fns[i]);
                let k = choose|k: int| 0 <= k < unsupported_ids(rest, rs, es, cs).len() && unsupported_ids(rest, rs, es, cs)[k] == fns[i].id@;
                if !function_ok_in(fns.last(), rs, es, cs) {
                    assert(unsupported_ids(fns, rs, es, cs)[k] == fns[i].id@);
                } else {
                    assert(unsupported_ids(fns, rs, es, cs) == unsupported_ids(rest, rs, es, cs));
                }
            } else {
                let ids = unsupported_ids(fns, rs, es, cs);
                assert(ids[ids.len() - 1] == fns[i].id@);
            }
        }
    }
}

/// No two custom types, records or enums of the catalog share an id.
pub open spec fn catalog_ids_distinct(cat: TypeCatalog) -> bool {
    &&& custom_ids_distinct(cat)
    &&& record_ids_distinct(cat)
    &&& enum_ids_distinct(cat)
}

/// Whether no two records of the catalog share an id.
fn record_ids_unique(cat: &TypeCatalog) -> (res: bool)
    ensures
        res == record_ids_distinct(*cat),
{
    let mut i: usize = 0;
    while i < cat.records.len()
        invariant
            i <= cat.records@.len(),
            forall|a: int, b: int| 0 <= a < b < i ==> (#[trigger] cat.records@[a]).id@ != (#[trigger] cat.records@[b]).id@,
        decreases cat.records.len() - i,
    {
        let mut j: usize = 0;
        while j < i
            invariant
                i < cat.records@.len(),
                j <= i,
                forall|a: int, b: int| 0 <= a < b < i ==> (#[trigger] cat.records@[a]).id@ != (#[trigger] cat.records@[b]).id@,
                forall|a: int| 0 <= a < j ==> (#[trigger] cat.records@[a]).id@ != cat.records@[i as int].id@,
            decreases i - j,
        {
            if cat.records[j].id.same_as(&cat.records[i].id) {
                return false;
            }
            j = j + 1;
        }
        i = i + 1;
    }
    true
}

/// Whether no two enums of the catalog share an id.
fn enum_ids_unique(cat: &TypeCatalog) -> (res: bool)
    ensures
        res == enum_ids_distinct(*cat),
{
    let mut i: usize = 0;
    while i < cat.enums.len()
        invariant
            i <= cat.enums@.len(),
            forall|a: int, b: int| 0 <= a < b < i ==> (#[trigger] cat.enums@[a]).id@ != (#[trigger] cat.enums@[b]).id@,
        decreases cat.enums.len() - i,
    {
        let mut j: usize = 0;
        while j < i
            invariant
                i < cat.enums@.len(),
                j <= i,
                forall|a: int, b: int| 0 <= a < b < i ==> (#[trigger] cat.enums@[a]).id@ != (#[trigger] cat.enums@[b]).id@,
                forall|a: int| 0 <= a < j ==> (#[trigger] cat.enums@[a]).id@ != cat.enums@[i as int].id@,
            decreases i - j,
        {
            if cat.enums[j].id.same_as(&cat.enums[i].id) {
                return false;
            }
            j = j + 1;
        }
        i = i + 1;
    }
    true
}

/// Whether no two custom types of the catalog share an id.
fn custom_ids_unique(cat: &TypeCatalog) -> (res: bool)
    ensures
        res == custom_ids_distinct(*cat),
{
    let mut i: usize = 0;
    while i < cat.customs.len()
        invariant
            i <= cat.customs@.len(),
            forall|a: int, b: int| 0 <= a < b < i ==> (#[trigger] cat.customs@[a]).id@ != (#[trigger] cat.customs@[b]).id@,
        decreases cat.customs.len() - i,
    {
        let mut j: usize = 0;
        while j < i
            invariant
                i < cat.customs@.len(),
                j <= i,
                forall|a: int, b: int| 0 <= a < b < i ==> (#[trigger] cat.customs@[a]).id@ != (#[trigger] cat.customs@[b]).id@,
                forall|a: int| 0 <= a < j ==> (#[trigger] cat.customs@[a]).id@ != cat.customs@[i as int].id@,
            decreases i - j,
        {
            if cat.customs[j].id.same_as(&cat.customs[i].id) {
                return false;
            }
            j = j + 1;
        }
        i = i + 1;
    }
    true
}

/// Whether no two declarations of one kind in the catalog share an id; see
/// [`catalog_ids_distinct`].
pub fn catalog_ids_are_distinct(cat: &TypeCatalog) -> (res: bool)
    ensures
        res == catalog_ids_distinct(*cat),
{
    custom_ids_unique(cat) && record_ids_unique(cat) && enum_ids_unique(cat)
}

/// A catalog whose declarations have distinct ids can be rendered: a
/// supported enum id names a C-style enum, and the custom walk of every
/// supported record field, parameter and return ends.
pub proof fn lemma_distinct_catalog_is_ready(contract: FfiContract)
    requires
        catalog_ids_distinct(contract.catalog),
    ensures
        kmp_ready(contract),
{
    let cat = contract.catalog;
    let rs = kmp_records(contract);
    let es = kmp_enum_set(cat);
    let cs = kmp_customs(contract);
    assert forall|i: int| 0 <= i < cat.enums@.len() && es.contains(#[trigger] cat.enums@[i].id@) implies cat.enums@[i].repr is CStyle by {
        let j = choose|j: int|
            0 <= j < cat.enums@.len() && cat.enums@[j].id@ == cat.enums@[i].id@ && !cat.enums@[j].is_error && cat.enums@[j].repr is CStyle;
        if j < i {
            assert(cat.enums@[j].id@ != cat.enums@[i].id@);
        } else if i < j {
            assert(cat.enums@[i].id@ != cat.enums@[j].id@);
        }
    }
    assert forall|i: int| 0 <= i < cat.records@.len() && rs.contains(#[trigger] cat.records@[i].id@) implies fields_walk_end(
        cat,
        cat.records@[i].fields@,
    ) by {
        lemma_supported_record_fields(cat, es, i);
        assert forall|j: int| 0 <= j < cat.records@[i].fields@.len() implies walks(cat, #[trigger] cat.records@[i].fields@[j].type_expr) by {
            assert(kmp_type_ok(cat.records@[i].fields@[j].type_expr, rs, es, cs));
            lemma_supported_types_walk(cat, rs, es, cat.records@[i].fields@[j].type_expr);
        }
    }
    assert forall|i: int| 0 <= i < contract.functions@.len() && function_ok_in(#[trigger] contract.functions@[i], rs, es, cs) implies params_walk_end(
        cat,
        contract.functions@[i].params@,
    ) && return_walks_end(cat, contract.functions@[i].returns) by {
        let f = contract.functions@[i];
        assert forall|j: int| 0 <= j < f.params@.len() implies walks(cat, #[trigger] f.params@[j].type_expr) by {
            lemma_supported_types_walk(cat, rs, es, f.params@[j].type_expr);
        }
        match f.returns {
            ReturnDef::Value(ty) => lemma_supported_types_walk(cat, rs, es, ty),
            _ => {},
        }
    }
}

proof fn lemma_views_push(v: Seq<String>, s: String)
    ensures
        string_views(v.push(s)) == string_views(v).push(s@),
{
    assert(string_views(v.push(s)) =~= string_views(v).push(s@));
}

impl KMPEmitter {
    /// The platform source sets a project gets: the desktop JVM, then
    /// Android.
    pub fn default_platform_adapters() -> (res: Vec<KmpPlatformAdapter>)
        ensures
            res@.len() == 2,
            res@[0].source_set@ == "jvmMain"@,
            res@[0].actual_file_suffix@ == "JvmActual"@,
            res@[1].source_set@ == "androidMain"@,
            res@[1].actual_file_suffix@ == "AndroidActual"@,
            forall|i: int| 0 <= i < res@.len() ==> res@[i].backend == KmpActualBackend::KotlinJvm,
            adapter_views(res@) == default_adapter_views(),
    {
        let mut res: Vec<KmpPlatformAdapter> = Vec::new();
        res.push(KmpPlatformAdapter::jvm());
        res.push(KmpPlatformAdapter::android());
        assert(adapter_views(res@) =~= default_adapter_views());
        res
    }

    /// The relative path of a package; see [`package_dirs`].
    pub fn package_path(package_name: &str) -> (res: String)
        ensures
            res@ == package_dirs(package_name@),
    {
        let ghost s = package_name@;
        let n = package_name.unicode_len();
        let mut done = String::new();
        let mut current = String::new();
        let mut i: usize = 0;
        proof {
            assert(s.take(0) =~= Seq::<char>::empty());
            assert(dot_parts(s.take(0)).drop_last() =~= Seq::<Seq<char>>::empty());
        }
        while i < n
            invariant
                s == package_name@,
                n == s.len(),
                i <= n,
                dot_parts(s.take(i as int)).len() >= 1,
                done@ == pieces_path(dot_parts(s.take(i as int)).drop_last()),
                current@ == dot_parts(s.take(i as int)).last(),
            decreases n - i,
        {
            let c = package_name.get_char(i);
            let ghost prev = dot_parts(s.take(i as int));
            assert(s.take(i + 1).drop_last() =~= s.take(i as int));
            assert(s.take(i + 1).last() == c);
            if c == '.' {
                assert(dot_parts(s.take(i + 1)) == prev.push(Seq::<char>::empty()));
                assert(dot_parts(s.take(i + 1)).drop_last() =~= prev);
                assert(prev.drop_last().push(prev.last()) =~= prev);
                done = join_path(done.as_str(), current.as_str());
                current = String::new();
            } else {
                let ghost next = prev.update(prev.len() - 1, prev.last().push(c));
                assert(dot_parts(s.take(i + 1)) == next);
                assert(next.drop_last() =~= prev.drop_last());
                push_char(&mut current, c);
            }
            i = i + 1;
        }
        assert(s.take(n as int) =~= s);
        let ghost parts = dot_parts(s);
        assert(parts.drop_last().push(parts.last()) =~= parts);
        join_path(done.as_str(), current.as_str())
    }

    /// The Kotlin source directory of a package in a source set; see
    /// [`kotlin_dir`].
    pub fn source_set_kotlin_dir(source_set: &str, package_path: &str) -> (res: String)
        ensures
            res@ == kotlin_dir(source_set@, package_path@),
    {
        let mut dir = String::from_str("src/");
        dir.append(source_set);
        dir.append("/kotlin");
        join_path(dir.as_str(), package_path)
    }

    /// The Gradle build script; see [`build_gradle_text`].
    pub fn render_build_gradle(package_name: &str, min_sdk: u32) -> (res: String)
        ensures
            res@ == build_gradle_text(package_name@, min_sdk as nat),
    {
        let mut res = String::from_str(BUILD_GRADLE_HEAD);
        res.append(package_name);
        res.append(BUILD_GRADLE_MIDDLE);
        push_decimal(&mut res, min_sdk as u128);
        res.append(BUILD_GRADLE_TAIL);
        res
    }

    /// The Gradle settings for a project named after `lowered_module_name`,
    /// which is already lower-cased; see [`settings_gradle_text`].
    pub fn render_settings_gradle_for_lowered(lowered_module_name: &str) -> (res: String)
        ensures
            res@ == settings_gradle_text(lowered_module_name@),
    {
        let mut res = String::from_str(SETTINGS_GRADLE_HEAD);
        res.append(lowered_module_name);
        res.append(SETTINGS_GRADLE_TAIL);
        res
    }

    /// The Gradle settings, naming the root project after the module name
    /// lower-cased.
    pub fn render_settings_gradle(module_name: &str) -> (res: String)
        ensures
            res@ == settings_gradle_text(unicode_lowercase(module_name@)),
    {
        let lowered = str_to_lowercase(module_name);
        KMPEmitter::render_settings_gradle_for_lowered(lowered.as_str())
    }

    /// The common surface of a contract under `support`; see
    /// [`common_surface_sections`].
    pub fn render_common_surface(contract: &FfiContract, package_name: &str, support: &KmpSurfaceSupport) -> (res: String)
        requires
            surface_ready(*contract, support.records@, support.enums@, support.custom_types@),
        ensures
            res@ == kotlin_file(
                common_surface_sections(*contract, package_name@, support.records@, support.enums@, support.custom_types@),
            ),
    {
        let ghost cat = contract.catalog;
        let ghost rs = support.records@;
        let ghost es = support.enums@;
        let ghost cs = support.custom_types@;
        let mut sections: Vec<String> = Vec::new();
        sections.push(String::from_str("// Auto-generated by BoltFFI. Do not edit."));
        let mut package_line = String::from_str("package ");
        package_line.append(package_name);
        sections.push(package_line);
        let ghost base = header_sections(package_name@);
        assert(string_views(sections@) =~= base);

        let mut i: usize = 0;
        while i < contract.catalog.customs.len()
            invariant
                cat == contract.catalog,
                cs == support.custom_types@,
                i <= cat.customs@.len(),
                string_views(sections@) == base + custom_sections(cat.customs@.take(i as int), cs),
            decreases contract.catalog.customs.len() - i,
        {
            let custom = &contract.catalog.customs[i];
            assert(cat.customs@.take(i + 1).drop_last() =~= cat.customs@.take(i as int));
            if support.custom_types.contains(custom.id.as_str()) {
                let text = KMPEmitter::render_custom_type(custom);
                proof { lemma_views_push(sections@, text); }
                sections.push(text);
            }
            i = i + 1;
        }
        assert(cat.customs@.take(cat.customs@.len() as int) =~= cat.customs@);
        let ghost base = base + custom_sections(cat.customs@, cs);

        let mut i: usize = 0;
        while i < contract.catalog.records.len()
            invariant
                cat == contract.catalog,
                rs == support.records@,
                i <= cat.records@.len(),
                string_views(sections@) == base + record_sections(cat.records@.take(i as int), rs),
            decreases contract.catalog.records.len() - i,
        {
            let record = &contract.catalog.records[i];
            assert(cat.records@.take(i + 1).drop_last() =~= cat.records@.take(i as int));
            if support.records.contains(record.id.as_str()) {
                let text = KMPEmitter::render_common_record(record);
                proof { lemma_views_push(sections@, text); }
                sections.push(text);
            }
            i = i + 1;
        }
        assert(cat.records@.take(cat.records@.len() as int) =~= cat.records@);
        let ghost base = base + record_sections(cat.records@, rs);

        let mut i: usize = 0;
        while i < contract.catalog.enums.len()
            invariant
                cat == contract.catalog,
                es == support.enums@,
                i <= cat.enums@.len(),
                forall|k: int| 0 <= k < cat.enums@.len() && es.contains(#[trigger] cat.enums@[k].id@) ==> cat.enums@[k].repr is CStyle,
                string_views(sections@) == base + enum_sections(cat.enums@.take(i as int), es),
            decreases contract.catalog.enums.len() - i,
        {
            let enumeration = &contract.catalog.enums[i];
            assert(cat.enums@.take(i + 1).drop_last() =~= cat.enums@.take(i as int));
            if support.enums.contains(enumeration.id.as_str()) {
                assert(cat.enums@[i as int].repr is CStyle);
                let text = KMPEmitter::render_common_enum(enumeration);
                proof { lemma_views_push(sections@, text); }
                sections.push(text);
            }
            i = i + 1;
        }
        assert(cat.enums@.take(cat.enums@.len() as int) =~= cat.enums@);
        let ghost base = base + enum_sections(cat.enums@, es);

        let ghost fns = contract.functions@;
        let mut unsupported: Vec<String> = Vec::new();
        let mut i: usize = 0;
        while i < contract.functions.len()
            invariant
                fns == contract.functions@,
                rs == support.records@,
                es == support.enums@,
                cs == support.custom_types@,
                i <= fns.len(),
                string_views(sections@) == base + function_sections(fns.take(i as int), rs, es, cs),
                string_views(unsupported@) == unsupported_ids(fns.take(i as int), rs, es, cs),
            decreases contract.functions.len() - i,
        {
            let function = &contract.functions[i];
            assert(fns.take(i + 1).drop_last() =~= fns.take(i as int));
            if function_supported(function, support) {
                let text = KMPEmitter::render_common_function(function);
                proof { lemma_views_push(sections@, text); }
                sections.push(text);
            } else {
                let id = String::from_str(function.id.as_str());
                proof { lemma_views_push(unsupported@, id); }
                unsupported.push(id);
            }
            i = i + 1;
        }
        assert(fns.take(fns.len() as int) =~= fns);
        if unsupported.len() > 0 {
            let mut note = String::from_str("// Unsupported in the initial KMP generator slice: ");
            let names = join_strings(&unsupported, ", ");
            note.append(names.as_str());
            proof { lemma_views_push(sections@, note); }
            sections.push(note);
        }
        assert(string_views(sections@) =~= common_surface_sections(*contract, package_name@, rs, es, cs));
        join_kotlin_sections(sections)
    }

    /// The project of [`Self::emit`] for a catalog that declares each id
    /// once, as one keyed by id does; `None` when two declarations of one
    /// kind share an id.
    pub fn emit_checked(contract: &FfiContract, options: KMPOptions, jvm_source: String, jni_source: String) -> (res: Option<KMPOutput>)
        ensures
            res is Some <==> catalog_ids_distinct(contract.catalog),
            res matches Some(out) ==> file_views(out.files@) == kmp_project_files(
                *contract,
                options.package_name@,
                options.module_name@,
                options.min_sdk as nat,
                jvm_source@,
                jni_source@,
            ),
    {
        if catalog_ids_are_distinct(&contract.catalog) {
            Some(KMPEmitter::emit(contract, options, jvm_source, jni_source))
        } else {
            None
        }
    }

    /// The whole project: the Gradle settings and build script, the common
    /// surface, the actual of each platform, and for each platform the
    /// internal JVM bindings `jvm_source` and their JNI glue `jni_source`.
    pub fn emit(contract: &FfiContract, options: KMPOptions, jvm_source: String, jni_source: String) -> (res: KMPOutput)
        requires
            catalog_ids_distinct(contract.catalog),
        ensures
            file_views(res.files@) == kmp_project_files(
                *contract,
                options.package_name@,
                options.module_name@,
                options.min_sdk as nat,
                jvm_source@,
                jni_source@,
            ),
    {
        let KMPOptions { package_name, module_name, min_sdk } = options;
        let mut internal_package = package_name.clone();
        internal_package.append(".jvm");
        let common_package_path = KMPEmitter::package_path(package_name.as_str());
        let internal_package_path = KMPEmitter::package_path(internal_package.as_str());
        let platform_adapters = KMPEmitter::default_platform_adapters();
        let rendered = KMPEmitter::render_surfaces(contract, package_name.as_str(), internal_package.as_str(), platform_adapters.as_slice());
        let ghost adapters = default_adapter_views();
        let ghost pkg = package_name@;
        let ghost module = module_name@;
        let ghost ipkg = internal_package@;
        let ghost actual = kotlin_file(
            jvm_actual_sections(*contract, pkg, ipkg, kmp_records(*contract), kmp_enum_set(contract.catalog), kmp_customs(*contract)),
        );
        let ghost all = kmp_project_files(*contract, pkg, module, min_sdk as nat, jvm_source@, jni_source@);

        let common_dir = KMPEmitter::source_set_kotlin_dir("commonMain", common_package_path.as_str());
        let mut common_file = module_name.clone();
        common_file.append(".kt");
        let common_path = join_path(common_dir.as_str(), common_file.as_str());
        let mut files: Vec<KMPOutputFile> = Vec::new();
        files.push(
            KMPOutputFile {
                relative_path: String::from_str("settings.gradle.kts"),
                contents: KMPEmitter::render_settings_gradle(module_name.as_str()),
            },
        );
        files.push(
            KMPOutputFile {
                relative_path: String::from_str("build.gradle.kts"),
                contents: KMPEmitter::render_build_gradle(package_name.as_str(), min_sdk),
            },
        );
        files.push(KMPOutputFile { relative_path: common_path, contents: rendered.common });
        assert(file_views(files@) =~= all.take(3));

        let mut i: usize = 0;
        while i < rendered.platform_actuals.len()
            invariant
                i <= rendered.platform_actuals@.len(),
                rendered.platform_actuals@.len() == platform_adapters@.len(),
                adapter_views(platform_adapters@) == adapters,
                adapters == default_adapter_views(),
                forall|k: int|
                    0 <= k < platform_adapters@.len() ==> (#[trigger] rendered.platform_actuals@[k]).adapter == platform_adapters@[k]
                        && rendered.platform_actuals@[k].contents@ == actual,
                common_package_path@ == package_dirs(pkg),
                module_name@ == module,
                all == kmp_project_files(*contract, pkg, module, min_sdk as nat, jvm_source@, jni_source@),
                actual == kotlin_file(
                    jvm_actual_sections(*contract, pkg, ipkg, kmp_records(*contract), kmp_enum_set(contract.catalog), kmp_customs(*contract)),
                ),
                ipkg == pkg + ".jvm"@,
                file_views(files@) == all.take(3 + i),
            decreases rendered.platform_actuals.len() - i,
        {
            let actual_file = &rendered.platform_actuals[i];
            let dir = KMPEmitter::source_set_kotlin_dir(actual_file.adapter.source_set, common_package_path.as_str());
            let mut name = module_name.clone();
            name.append(actual_file.adapter.actual_file_suffix);
            name.append(".kt");
            let path = join_path(dir.as_str(), name.as_str());
            let file = KMPOutputFile { relative_path: path, contents: actual_file.contents.clone() };
            let ghost before = file_views(files@);
            files.push(file);
            assert(adapters[i as int] == (platform_adapters@[i as int].source_set@, platform_adapters@[i as int].actual_file_suffix@));
            assert(file_views(files@) =~= before.push((file.relative_path@, file.contents@)));
            assert(all.take(3 + i + 1) =~= all.take(3 + i).push(all[3 + i]));
            i = i + 1;
        }

        let mut i: usize = 0;
        while i < platform_adapters.len()
            invariant
                i <= platform_adapters@.len(),
                adapter_views(platform_adapters@) == adapters,
                adapters == default_adapter_views(),
                internal_package_path@ == package_dirs(ipkg),
                module_name@ == module,
                all == kmp_project_files(*contract, pkg, module, min_sdk as nat, jvm_source@, jni_source@),
                ipkg == pkg + ".jvm"@,
                file_views(files@) == all.take(5 + i),
            decreases platform_adapters.len() - i,
        {
            let adapter = platform_adapters[i];
            match adapter.backend {
                KmpActualBackend::KotlinJvm => {
                    let dir = KMPEmitter::source_set_kotlin_dir(adapter.source_set, internal_package_path.as_str());
                    let mut name = module_name.clone();
                    name.append(".kt");
                    let path = join_path(dir.as_str(), name.as_str());
                    let file = KMPOutputFile { relative_path: path, contents: jvm_source.clone() };
                    let ghost before = file_views(files@);
                    files.push(file);
                    assert(adapters[i as int] == (platform_adapters@[i as int].source_set@, platform_adapters@[i as int].actual_file_suffix@));
                    assert(file_views(files@) =~= before.push((file.relative_path@, file.contents@)));
                    assert(all.take(5 + i + 1) =~= all.take(5 + i).push(all[5 + i]));
                },
            }
            i = i + 1;
        }

        let mut i: usize = 0;
        while i < platform_adapters.len()
            invariant
                i <= platform_adapters@.len(),
                adapter_views(platform_adapters@) == adapters,
                adapters == default_adapter_views(),
                all == kmp_project_files(*contract, pkg, module, min_sdk as nat, jvm_source@, jni_source@),
                file_views(files@) == all.take(7 + i),
            decreases platform_adapters.len() - i,
        {
            let adapter = platform_adapters[i];
            match adapter.backend {
                KmpActualBackend::KotlinJvm => {
                    let mut path = String::from_str("src/");
                    path.append(adapter.source_set);
                    path.append("/c/jni_glue.c");
                    let file = KMPOutputFile { relative_path: path, contents: jni_source.clone() };
                    let ghost before = file_views(files@);
                    files.push(file);
                    assert(adapters[i as int] == (platform_adapters@[i as int].source_set@, platform_adapters@[i as int].actual_file_suffix@));
                    assert(file_views(files@) =~= before.push((file.relative_path@, file.contents@)));
                    assert(all.take(7 + i + 1) =~= all.take(7 + i).push(all[7 + i]));
                },
            }
            i = i + 1;
        }
        assert(all.len() == 9);
        assert(all.take(9) =~= all);
        KMPOutput { files }
    }

    /// The JVM actual file of a contract under `support`; see
    /// [`jvm_actual_sections`].
    pub fn render_kotlin_jvm_actual(contract: &FfiContract, package_name: &str, internal_package: &str, support: &KmpSurfaceSupport) -> (res: String)
        requires
            surface_ready(*contract, support.records@, support.enums@, support.custom_types@),
        ensures
            res@ == kotlin_file(
                jvm_actual_sections(
                    *contract,
                    package_name@,
                    internal_package@,
                    support.records@,
                    support.enums@,
                    support.custom_types@,
                ),
            ),
    {
        let ghost cat = contract.catalog;
        let ghost rs = support.records@;
        let ghost es = support.enums@;
        let ghost cs = support.custom_types@;
        let ghost ipkg = internal_package@;
        let mut sections: Vec<String> = Vec::new();
        sections.push(String::from_str("// Auto-generated by BoltFFI. Do not edit."));
        let mut package_line = String::from_str("package ");
        package_line.append(package_name);
        sections.push(package_line);
        let ghost base = header_sections(package_name@);
        assert(string_views(sections@) =~= base);

        let mut i: usize = 0;
        while i < contract.catalog.records.len()
            invariant
                cat == contract.catalog,
                rs == support.records@,
                ipkg == internal_package@,
                i <= cat.records@.len(),
                forall|k: int| 0 <= k < cat.records@.len() && rs.contains(#[trigger] cat.records@[k].id@) ==> fields_walk_end(
                    cat,
                    cat.records@[k].fields@,
                ),
                string_views(sections@) == base + conversion_sections(cat, cat.records@.take(i as int), rs, ipkg),
            decreases contract.catalog.records.len() - i,
        {
            let record = &contract.catalog.records[i];
            assert(cat.records@.take(i + 1).drop_last() =~= cat.records@.take(i as int));
            if support.records.contains(record.id.as_str()) {
                assert(fields_walk_end(cat, cat.records@[i as int].fields@));
                let text = KMPEmitter::render_record_actual_conversions(record, internal_package, contract);
                proof { lemma_views_push(sections@, text); }
                sections.push(text);
            }
            i = i + 1;
        }
        assert(cat.records@.take(cat.records@.len() as int) =~= cat.records@);
        let ghost base = base + conversion_sections(cat, cat.records@, rs, ipkg);

        let ghost fns = contract.functions@;
        let mut i: usize = 0;
        while i < contract.functions.len()
            invariant
                cat == contract.catalog,
                fns == contract.functions@,
                rs == support.records@,
                es == support.enums@,
                cs == support.custom_types@,
                ipkg == internal_package@,
                i <= fns.len(),
                forall|k: int| 0 <= k < fns.len() && function_ok_in(#[trigger] fns[k], rs, es, cs) ==> params_walk_end(cat, fns[k].params@)
                    && return_walks_end(cat, fns[k].returns),
                string_views(sections@) == base + actual_function_sections(cat, fns.take(i as int), rs, es, cs, ipkg),
            decreases contract.functions.len() - i,
        {
            let function = &contract.functions[i];
            assert(fns.take(i + 1).drop_last() =~= fns.take(i as int));
            if function_supported(function, support) {
                assert(function_ok_in(fns[i as int], rs, es, cs));
                let text = KMPEmitter::render_kotlin_jvm_function_actual(function, contract, internal_package);
                proof { lemma_views_push(sections@, text); }
                sections.push(text);
            }
            i = i + 1;
        }
        assert(fns.take(fns.len() as int) =~= fns);
        assert(string_views(sections@) =~= jvm_actual_sections(*contract, package_name@, ipkg, rs, es, cs));
        join_kotlin_sections(sections)
    }

    /// The actual file of one platform, by its backend.
    pub fn render_platform_actual(
        contract: &FfiContract,
        package_name: &str,
        internal_package: &str,
        support: &KmpSurfaceSupport,
        adapter: KmpPlatformAdapter,
    ) -> (res: String)
        requires
            surface_ready(*contract, support.records@, support.enums@, support.custom_types@),
        ensures
            adapter.backend == KmpActualBackend::KotlinJvm ==> res@ == kotlin_file(
                jvm_actual_sections(
                    *contract,
                    package_name@,
                    internal_package@,
                    support.records@,
                    support.enums@,
                    support.custom_types@,
                ),
            ),
    {
        match adapter.backend {
            KmpActualBackend::KotlinJvm => KMPEmitter::render_kotlin_jvm_actual(contract, package_name, internal_package, support),
        }
    }

    /// The common surface once, and the actual of each platform in the
    /// order given, all under the support the contract has.
    pub fn render_surfaces(
        contract: &FfiContract,
        package_name: &str,
        internal_package: &str,
        platform_adapters: &[KmpPlatformAdapter],
    ) -> (res: KmpRender)
        requires
            catalog_ids_distinct(contract.catalog),
        ensures
            res.common@ == kotlin_file(
                common_surface_sections(
                    *contract,
                    package_name@,
                    kmp_records(*contract),
                    kmp_enum_set(contract.catalog),
                    kmp_customs(*contract),
                ),
            ),
            res.platform_actuals@.len() == platform_adapters@.len(),
            forall|i: int|
                0 <= i < platform_adapters@.len() ==> (#[trigger] res.platform_actuals@[i]).adapter == platform_adapters@[i]
                    && res.platform_actuals@[i].contents@ == kotlin_file(
                    jvm_actual_sections(
                        *contract,
                        package_name@,
                        internal_package@,
                        kmp_records(*contract),
                        kmp_enum_set(contract.catalog),
                        kmp_customs(*contract),
                    ),
                ),
    {
        proof {
            lemma_distinct_catalog_is_ready(*contract);
        }
        let support = KmpSurfaceSupport::for_contract(contract);
        let common = KMPEmitter::render_common_surface(contract, package_name, &support);
        let mut platform_actuals: Vec<KmpPlatformActual> = Vec::new();
        let mut i: usize = 0;
        while i < platform_adapters.len()
            invariant
                i <= platform_adapters@.len(),
                support.records@ == kmp_records(*contract),
                support.enums@ == kmp_enum_set(contract.catalog),
                support.custom_types@ == kmp_customs(*contract),
                kmp_ready(*contract),
                platform_actuals@.len() == i,
                forall|k: int|
                    0 <= k < i ==> (#[trigger] platform_actuals@[k]).adapter == platform_adapters@[k]
                        && platform_actuals@[k].contents@ == kotlin_file(
                        jvm_actual_sections(
                            *contract,
                            package_name@,
                            internal_package@,
                            kmp_records(*contract),
                            kmp_enum_set(contract.catalog),
                            kmp_customs(*contract),
                        ),
                    ),
            decreases platform_adapters.len() - i,
        {
            let adapter = platform_adapters[i];
            let contents = KMPEmitter::render_platform_actual(contract, package_name, internal_package, &support, adapter);
            platform_actuals.push(KmpPlatformActual { adapter, contents });
            i = i + 1;
        }
        KmpRender { common, platform_actuals }
    }
}

} // verus!
