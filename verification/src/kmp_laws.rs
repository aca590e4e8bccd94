//! What the Kotlin Multiplatform project promises as a whole: the Gradle
//! files carry the project's name, toolchain and Android settings, and the
//! JVM and Android copies of the sources are the same.

use vstd::prelude::*;
use vstd::string::*;

use crate::defs::FfiContract;
use crate::kmp_emit::{
    build_gradle_text, default_adapter_views, kmp_project_files, kotlin_dir, package_dirs, settings_gradle_text,
    BUILD_GRADLE_HEAD, BUILD_GRADLE_MIDDLE, BUILD_GRADLE_TAIL, SETTINGS_GRADLE_HEAD, SETTINGS_GRADLE_TAIL,
};
use crate::paths::path_join;
use crate::kmp_emit::kotlin_file;
use crate::kmp_names::kept_sections;
use crate::text::{decimal_nat, first_non_space, is_white_space, joined, last_non_space_end, trimmed};
use crate::wasm_bindgen::{occurs_at, occurs_in};

verus! {

proof fn lemma_occurs_in_head(head: Seq<char>, rest: Seq<char>, pat: Seq<char>, i: int)
    requires
        0 <= i,
        i + pat.len() <= head.len(),
        head.subrange(i, i + pat.len()) == pat,
    ensures
        occurs_in(head + rest, pat),
{
    assert((head + rest).subrange(i, i + pat.len()) =~= head.subrange(i, i + pat.len()));
    assert(occurs_at(head + rest, pat, i));
}

/// The settings name the root project after the lowercased module with
/// `-kmp` appended, and refuse repositories declared by projects.
pub proof fn lemma_settings_gradle_contents(lowered: Seq<char>)
    ensures
        occurs_in(settings_gradle_text(lowered), "rootProject.name = \""@ + lowered + "-kmp\""@),
        occurs_in(settings_gradle_text(lowered), "repositoriesMode.set(RepositoriesMode.FAIL_ON_PROJECT_REPOS)"@),
{
    reveal_strlit("pluginManagement {\n    repositories {\n        google()\n        mavenCentral()\n        gradlePluginPortal()\n    }\n}\n\ndependencyResolutionManagement {\n    repositoriesMode.set(RepositoriesMode.FAIL_ON_PROJECT_REPOS)\n    repositories {\n        google()\n        mavenCentral()\n    }\n}\n\nrootProject.name = \"");
    reveal_strlit("-kmp\"\n");
    reveal_strlit("rootProject.name = \"");
    reveal_strlit("-kmp\"");
    reveal_strlit("repositoriesMode.set(RepositoriesMode.FAIL_ON_PROJECT_REPOS)");
    let head = SETTINGS_GRADLE_HEAD@;
    let tail = SETTINGS_GRADLE_TAIL@;
    let text = settings_gradle_text(lowered);
    let name = "rootProject.name = \""@ + lowered + "-kmp\""@;
    assert(head.subrange(282, 302) =~= "rootProject.name = \""@);
    assert(tail.subrange(0, 5) =~= "-kmp\""@);
    assert(text.subrange(282, 282 + name.len() as int) =~= name);
    assert(occurs_at(text, name, 282));
    let repos = "repositoriesMode.set(RepositoriesMode.FAIL_ON_PROJECT_REPOS)"@;
    assert(head.subrange(153, 153 + repos.len() as int) =~= repos);
    lemma_occurs_in_head(head, lowered + tail, repos, 153);
    assert(head + (lowered + tail) =~= text);
}

/// The build script uses Kotlin Multiplatform 2.3.21, targets JVM 1.8,
/// depends on kotlinx-coroutines 1.11.0, and sets the Android namespace to
/// the package and the minimum SDK given.
pub proof fn lemma_build_gradle_contents(pkg: Seq<char>, min_sdk: nat)
    ensures
        occurs_in(build_gradle_text(pkg, min_sdk), "namespace = \""@ + pkg + "\""@),
        occurs_in(build_gradle_text(pkg, min_sdk), "minSdk = "@ + decimal_nat(min_sdk)),
        occurs_in(build_gradle_text(pkg, min_sdk), "kotlin(\"multiplatform\") version \"2.3.21\""@),
        occurs_in(build_gradle_text(pkg, min_sdk), "kotlinx-coroutines-core:1.11.0"@),
        occurs_in(build_gradle_text(pkg, min_sdk), "jvmTarget.set(JvmTarget.JVM_1_8)"@),
{
    reveal_strlit("import org.jetbrains.kotlin.gradle.dsl.JvmTarget\n\nplugins {\n    kotlin(\"multiplatform\") version \"2.3.21\"\n    id(\"com.android.library\") version \"8.5.2\"\n}\n\nkotlin {\n    jvm {\n        compilerOptions {\n            jvmTarget.set(JvmTarget.JVM_1_8)\n        }\n    }\n\n    androidTarget {\n        compilerOptions {\n            jvmTarget.set(JvmTarget.JVM_1_8)\n        }\n    }\n\n    sourceSets {\n        commonMain.dependencies {\n            implementation(\"org.jetbrains.kotlinx:kotlinx-coroutines-core:1.11.0\")\n        }\n    }\n}\n\nandroid {\n    namespace = \"");
    reveal_strlit("\"\n    compileSdk = 35\n\n    defaultConfig {\n        minSdk = ");
    reveal_strlit("namespace = \"");
    reveal_strlit("\"");
    reveal_strlit("minSdk = ");
    reveal_strlit("kotlin(\"multiplatform\") version \"2.3.21\"");
    reveal_strlit("kotlinx-coroutines-core:1.11.0");
    reveal_strlit("jvmTarget.set(JvmTarget.JVM_1_8)");
    let head = BUILD_GRADLE_HEAD@;
    let middle = BUILD_GRADLE_MIDDLE@;
    let tail = BUILD_GRADLE_TAIL@;
    let n = decimal_nat(min_sdk);
    let text = build_gradle_text(pkg, min_sdk);
    let rest = pkg + middle + n + tail;
    assert(head + rest =~= text);
    let ns = "namespace = \""@ + pkg + "\""@;
    assert(head.subrange(536, 549) =~= "namespace = \""@);
    assert(middle.subrange(0, 1) =~= "\""@);
    assert(text.subrange(536, 536 + ns.len() as int) =~= ns);
    assert(occurs_at(text, ns, 536));
    let sdk = "minSdk = "@ + n;
    let at = head.len() + pkg.len() + middle.len() - 9;
    assert(middle.subrange(middle.len() - 9, middle.len() as int) =~= "minSdk = "@);
    assert(text.subrange(at, at + sdk.len()) =~= sdk);
    assert(occurs_at(text, sdk, at));
    let kmp = "kotlin(\"multiplatform\") version \"2.3.21\""@;
    assert(head.subrange(64, 64 + kmp.len() as int) =~= kmp);
    lemma_occurs_in_head(head, rest, kmp, 64);
    let coroutines = "kotlinx-coroutines-core:1.11.0"@;
    assert(head.subrange(470, 470 + coroutines.len() as int) =~= coroutines);
    lemma_occurs_in_head(head, rest, coroutines, 470);
    let jvm = "jvmTarget.set(JvmTarget.JVM_1_8)"@;
    assert(head.subrange(211, 211 + jvm.len() as int) =~= jvm);
    lemma_occurs_in_head(head, rest, jvm, 211);
}

/// The JVM and Android copies of the project are the same: the actual
/// file, the internal JVM sources and the JNI glue of each platform hold
/// the same text, under the platform's own source set.
pub proof fn lemma_platform_copies_identical(
    contract: FfiContract,
    pkg: Seq<char>,
    module: Seq<char>,
    min_sdk: nat,
    jvm_source: Seq<char>,
    jni_source: Seq<char>,
)
    ensures
        ({
            let f = kmp_project_files(contract, pkg, module, min_sdk, jvm_source, jni_source);
            let ipkg = pkg + ".jvm"@;
            &&& f.len() == 9
            &&& f[3].0 == path_join(kotlin_dir("jvmMain"@, package_dirs(pkg)), module + "JvmActual"@ + ".kt"@)
            &&& f[4].0 == path_join(kotlin_dir("androidMain"@, package_dirs(pkg)), module + "AndroidActual"@ + ".kt"@)
            &&& f[3].1 == f[4].1
            &&& f[5].0 == path_join(kotlin_dir("jvmMain"@, package_dirs(ipkg)), module + ".kt"@)
            &&& f[6].0 == path_join(kotlin_dir("androidMain"@, package_dirs(ipkg)), module + ".kt"@)
            &&& f[5].1 == jvm_source && f[6].1 == jvm_source
            &&& f[7].0 == "src/"@ + "jvmMain"@ + "/c/jni_glue.c"@ && f[8].0 == "src/"@ + "androidMain"@ + "/c/jni_glue.c"@
            &&& f[7].1 == jni_source && f[8].1 == jni_source
        }),
{
    let a = default_adapter_views();
    assert(a[0] == ("jvmMain"@, "JvmActual"@));
    assert(a[1] == ("androidMain"@, "AndroidActual"@));
    let f = kmp_project_files(contract, pkg, module, min_sdk, jvm_source, jni_source);
    assert(f.len() == 9);
    assert(f[3] == (path_join(kotlin_dir(a[0].0, package_dirs(pkg)), module + a[0].1 + ".kt"@), f[3].1));
    assert(f[4] == (path_join(kotlin_dir(a[1].0, package_dirs(pkg)), module + a[1].1 + ".kt"@), f[3].1));
    assert(f[5] == (path_join(kotlin_dir(a[0].0, package_dirs(pkg + ".jvm"@)), module + ".kt"@), jvm_source));
    assert(f[6] == (path_join(kotlin_dir(a[1].0, package_dirs(pkg + ".jvm"@)), module + ".kt"@), jvm_source));
    assert(f[7] == ("src/"@ + a[0].0 + "/c/jni_glue.c"@, jni_source));
    assert(f[8] == ("src/"@ + a[1].0 + "/c/jni_glue.c"@, jni_source));
}

proof fn lemma_last_non_space_end(s: Seq<char>, j: int)
    requires
        0 <= j <= s.len(),
    ensures
        0 <= last_non_space_end(s, j) <= j,
        last_non_space_end(s, j) > 0 ==> !is_white_space(s[last_non_space_end(s, j) - 1]),
    decreases j,
{
    if j > 0 && is_white_space(s[j - 1]) {
        lemma_last_non_space_end(s, j - 1);
    }
}

proof fn lemma_first_non_space(s: Seq<char>, i: int)
    requires
        0 <= i,
    ensures
        0 <= first_non_space(s, i),
    decreases s.len() - i,
{
    if i < s.len() && is_white_space(s[i]) {
        lemma_first_non_space(s, i + 1);
    }
}

proof fn lemma_trimmed_ends_in_text(s: Seq<char>)
    ensures
        trimmed(s).len() > 0 ==> !is_white_space(trimmed(s).last()),
{
    lemma_last_non_space_end(s, s.len() as int);
    lemma_first_non_space(s, 0);
    let start = first_non_space(s, 0);
    let end = last_non_space_end(s, s.len() as int);
    if start < end {
        assert(trimmed(s).last() == s[end - 1]);
    }
}

proof fn lemma_kept_sections_end_in_text(sections: Seq<Seq<char>>)
    ensures
        forall|i: int| 0 <= i < kept_sections(sections).len() ==> (#[trigger] kept_sections(sections)[i]).len() > 0
            && !is_white_space(kept_sections(sections)[i].last()),
    decreases sections.len(),
{
    if sections.len() > 0 {
        let rest = kept_sections(sections.drop_last());
        lemma_kept_sections_end_in_text(sections.drop_last());
        lemma_trimmed_ends_in_text(sections.last());
        let kept = kept_sections(sections);
        assert forall|i: int| 0 <= i < kept.len() implies (#[trigger] kept[i]).len() > 0 && !is_white_space(kept[i].last()) by {
            if i < rest.len() {
                assert(kept[i] == rest[i]);
            }
        }
    }
}

proof fn lemma_joined_ends_like_last(parts: Seq<Seq<char>>, sep: Seq<char>)
    requires
        parts.len() > 0,
        parts.last().len() > 0,
    ensures
        joined(parts, sep).len() > 0,
        joined(parts, sep).last() == parts.last().last(),
    decreases parts.len(),
{
}

/// A Kotlin file ends with exactly one newline: its last character is a
/// newline and the one before it, when there is one, is not.
pub proof fn lemma_kotlin_file_single_final_newline(sections: Seq<Seq<char>>)
    ensures
        kotlin_file(sections).len() > 0,
        kotlin_file(sections).last() == '\n',
        kotlin_file(sections).len() >= 2 ==> kotlin_file(sections)[kotlin_file(sections).len() - 2] != '\n',
{
    reveal_strlit("\n");
    let kept = kept_sections(sections);
    let body = joined(kept, "\n\n"@);
    let text = kotlin_file(sections);
    assert(text == body + "\n"@);
    if kept.len() == 0 {
        assert(body.len() == 0);
    } else {
        lemma_kept_sections_end_in_text(sections);
        assert(kept[kept.len() - 1] == kept.last());
        lemma_joined_ends_like_last(kept, "\n\n"@);
        assert(text[text.len() - 2] == body.last());
        assert(('\n' as u32) == 10);
        assert(is_white_space('\n'));
    }
}

} // verus!
