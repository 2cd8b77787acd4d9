use vstd::prelude::*;
use crate::paths::{join, join_path, sidecar_name};

verus! {

/// A file that is looked for in several places, in order, with the error to
/// report when none of them exists.
pub struct SearchPlan {
    pub candidates: Vec<String>,
    pub not_found: String,
}

fn join3(a: &str, b: &str, c: &str) -> (r: String)
    ensures
        r@ == join_path(join_path(a@, b@), c@),
{
    let x = join(a, b);
    join(x.as_str(), c)
}

fn push_in_dir(v: &mut Vec<String>, dir: Option<&str>, file: &str)
    ensures
        final(v)@.map_values(|s: String| s@) == match dir {
            Some(d) => old(v)@.map_values(|s: String| s@).push(join_path(d@, file@)),
            None => old(v)@.map_values(|s: String| s@),
        },
{
    let ghost before = v@.map_values(|s: String| s@);
    match dir {
        Some(d) => {
            v.push(join(d, file));
            assert(v@.map_values(|s: String| s@) =~= before.push(join_path(d@, file@)));
        },
        None => {
            assert(v@.map_values(|s: String| s@) =~= before);
        },
    }
}

/// Where the helper binary is looked for: the release and debug builds of the
/// helper project next to the application's project, then the directory of the
/// running executable.
pub fn helper_binary_search(project_dir: &str, exe_dir: Option<&str>) -> (r: SearchPlan)
    ensures
        r.candidates@.map_values(|s: String| s@) == {
            let helper = join_path(join_path(project_dir@, "helper"@), "target"@);
            let firsts = seq![
                join_path(join_path(helper, "release"@), "clash-tiny-helper"@),
                join_path(join_path(helper, "debug"@), "clash-tiny-helper"@),
            ];
            match exe_dir {
                Some(d) => firsts.push(join_path(d@, "clash-tiny-helper"@)),
                None => firsts,
            }
        },
        r.not_found@ == "找不到 Helper 二进制文件，请先编译 helper 项目"@,
{
    let helper = join3(project_dir, "helper", "target");
    let mut v: Vec<String> = Vec::new();
    v.push(join3(helper.as_str(), "release", "clash-tiny-helper"));
    v.push(join3(helper.as_str(), "debug", "clash-tiny-helper"));
    push_in_dir(&mut v, exe_dir, "clash-tiny-helper");
    SearchPlan { candidates: v, not_found: String::from_str("找不到 Helper 二进制文件，请先编译 helper 项目") }
}

/// Where a file of the helper project's `scripts` directory is looked for: that
/// directory, then (unless `only_project`) the directory of the running executable.
fn script_search(project_dir: &str, exe_dir: Option<&str>, file: &str, only_project: bool) -> (r: Vec<String>)
    ensures
        r@.map_values(|s: String| s@) == {
            let first = seq![join_path(join_path(join_path(project_dir@, "helper"@), "scripts"@), file@)];
            match exe_dir {
                Some(d) => if only_project {
                    first
                } else {
                    first.push(join_path(d@, file@))
                },
                None => first,
            }
        },
{
    let scripts = join3(project_dir, "helper", "scripts");
    let mut v: Vec<String> = Vec::new();
    v.push(join(scripts.as_str(), file));
    if !only_project {
        push_in_dir(&mut v, exe_dir, file);
    } else {
        assert(v@.map_values(|s: String| s@) =~= seq![
            join_path(join_path(join_path(project_dir@, "helper"@), "scripts"@), file@),
        ]);
    }
    v
}

/// Where the helper's launch daemon file is looked for.
pub fn helper_plist_search(project_dir: &str, exe_dir: Option<&str>) -> (r: SearchPlan)
    ensures
        r.candidates@.map_values(|s: String| s@) == {
            let first = seq![
                join_path(
                    join_path(join_path(project_dir@, "helper"@), "scripts"@),
                    "com.clash-tiny.helper.plist"@,
                ),
            ];
            match exe_dir {
                Some(d) => first.push(join_path(d@, "com.clash-tiny.helper.plist"@)),
                None => first,
            }
        },
        r.not_found@ == "找不到 Helper plist 文件"@,
{
    SearchPlan {
        candidates: script_search(project_dir, exe_dir, "com.clash-tiny.helper.plist", false),
        not_found: String::from_str("找不到 Helper plist 文件"),
    }
}

/// Where the helper's install script is looked for.
pub fn install_script_search(project_dir: &str, exe_dir: Option<&str>) -> (r: SearchPlan)
    ensures
        r.candidates@.map_values(|s: String| s@) == {
            let first = seq![
                join_path(join_path(join_path(project_dir@, "helper"@), "scripts"@), "install.sh"@),
            ];
            match exe_dir {
                Some(d) => first.push(join_path(d@, "install.sh"@)),
                None => first,
            }
        },
        r.not_found@ == "找不到 install.sh 脚本"@,
{
    SearchPlan {
        candidates: script_search(project_dir, exe_dir, "install.sh", false),
        not_found: String::from_str("找不到 install.sh 脚本"),
    }
}

/// Where the helper's uninstall script is looked for: only in the helper project.
pub fn uninstall_script_search(project_dir: &str) -> (r: SearchPlan)
    ensures
        r.candidates@.map_values(|s: String| s@) == seq![
            join_path(join_path(join_path(project_dir@, "helper"@), "scripts"@), "uninstall.sh"@),
        ],
        r.not_found@ == "找不到 uninstall.sh 脚本"@,
{
    SearchPlan {
        candidates: script_search(project_dir, None, "uninstall.sh", true),
        not_found: String::from_str("找不到 uninstall.sh 脚本"),
    }
}

/// Where the core binary is looked for: the project's `bin` directory, then the
/// directory of the running executable, then (in a bundled application) its
/// resource directory.
pub fn mihomo_bin_search(arch: &str, manifest_dir: &str, exe_dir: Option<&str>, resource_dir: Option<&str>) -> (r: SearchPlan)
    ensures
        r.candidates@.map_values(|s: String| s@) == {
            let name = "mihomo-"@ + arch@ + "-apple-darwin"@;
            let first = seq![join_path(join_path(manifest_dir@, "bin"@), name)];
            let second = match exe_dir {
                Some(d) => first.push(join_path(d@, name)),
                None => first,
            };
            match resource_dir {
                Some(d) => second.push(join_path(d@, name)),
                None => second,
            }
        },
        r.not_found@ == "Cannot find mihomo binary '"@ + "mihomo-"@ + arch@ + "-apple-darwin"@
            + "'. Place it in src-tauri/bin/"@,
{
    let name = sidecar_name(arch);
    let mut v: Vec<String> = Vec::new();
    v.push(join3(manifest_dir, "bin", name.as_str()));
    push_in_dir(&mut v, exe_dir, name.as_str());
    push_in_dir(&mut v, resource_dir, name.as_str());
    SearchPlan {
        candidates: v,
        not_found: String::from_str("Cannot find mihomo binary '").concat(name.as_str()).concat(
            "'. Place it in src-tauri/bin/",
        ),
    }
}


/// Where the core binary is looked for outside a bundled application: the
/// project's `bin` directory, then the directory of the running executable.
pub fn mihomo_bin_path_search(arch: &str, manifest_dir: &str, exe_dir: Option<&str>) -> (r: SearchPlan)
    ensures
        r.candidates@.map_values(|s: String| s@) == {
            let name = "mihomo-"@ + arch@ + "-apple-darwin"@;
            let first = seq![join_path(join_path(manifest_dir@, "bin"@), name)];
            match exe_dir {
                Some(d) => first.push(join_path(d@, name)),
                None => first,
            }
        },
        r.not_found@ == "找不到 mihomo 二进制: "@ + "mihomo-"@ + arch@ + "-apple-darwin"@,
{
    let name = sidecar_name(arch);
    let mut v: Vec<String> = Vec::new();
    v.push(join3(manifest_dir, "bin", name.as_str()));
    push_in_dir(&mut v, exe_dir, name.as_str());
    SearchPlan { candidates: v, not_found: String::from_str("找不到 mihomo 二进制: ").concat(name.as_str()) }
}

} // verus!
