use ffmpeg_addon::orchestrator::extraction::DirEntry;
use ffmpeg_addon::package::{names_features, names_package, satisfies, PackageRequirement};
use ffmpeg_addon::paths::join;
use ffmpeg_addon::vcpkg_manager::{Platform, VcpkgManager};

fn features() -> Vec<String> {
    vec![String::from("x264"), String::from("x265"), String::from("vpx")]
}

#[test]
fn a_path_is_joined_by_one_separator() {
    assert_eq!(join("/work", "vcpkg"), "/work/vcpkg");
    assert_eq!(join("/work/", "vcpkg"), "/work/vcpkg");
    assert_eq!(join(".", "vcpkg"), "./vcpkg");
    assert_eq!(join("", "vcpkg"), "vcpkg");
    assert_eq!(join("/", "vcpkg"), "/vcpkg");
    assert_eq!(join("/work", ""), "/work/");
    assert_eq!(join("/h\u{e9}", "x"), "/h\u{e9}/x");
    assert_eq!(join("/work", "/etc/x"), "/etc/x");
    assert_eq!(join("", "/etc/x"), "/etc/x");
    assert_eq!(join("", ""), "");
}

#[test]
fn a_path_is_joined_as_the_platform_joins_it() {
    if std::path::MAIN_SEPARATOR != '/' {
        return;
    }
    let bases = ["", ".", "/", "/work", "/work/", "a/b", "a//", "\u{e9}"];
    let names = ["", "x", "x/y", "/x", "/", "..", "\u{e9}.c", "x/"];
    for base in bases {
        for name in names {
            let joined = std::path::Path::new(base).join(name);
            assert_eq!(Some(join(base, name).as_str()), joined.to_str());
        }
    }
}

#[test]
fn the_executable_is_the_platforms_name_below_the_root() {
    let m = VcpkgManager::new("/work", Platform::Linux);
    assert_eq!(m.get_vcpkg_root(), "/work/vcpkg");
    assert_eq!(m.get_vcpkg_exe(), "/work/vcpkg/vcpkg");
    assert_eq!(m.get_triplet(), "x64-linux");
    assert_eq!(m.get_platform(), Platform::Linux);
    let m = VcpkgManager::new("/work", Platform::MacOs);
    assert_eq!(m.get_vcpkg_exe(), "/work/vcpkg/vcpkg");
    assert_eq!(m.get_triplet(), "x64-osx");
    let m = VcpkgManager::new("C:/work", Platform::Windows);
    assert_eq!(m.get_vcpkg_root(), "C:/work/vcpkg");
    assert_eq!(m.get_vcpkg_exe(), "C:/work/vcpkg/vcpkg.exe");
    assert_eq!(m.get_triplet(), "x64-windows-static");
}

#[test]
fn the_layout_lies_below_the_base() {
    let m = VcpkgManager::new("/work", Platform::Linux);
    assert_eq!(m.get_output_dir(), "/work");
    assert_eq!(m.downloads_dir(), "/work/vcpkg/downloads");
    assert_eq!(m.staging_dir(), "/work/.ffmpeg_temp");
    assert_eq!(m.tree_dir(), "/work/ffmpeg");
    assert_eq!(m.bootstrap_script(), "/work/vcpkg/bootstrap-vcpkg.sh");
    let m = VcpkgManager::new("/work", Platform::Windows);
    assert_eq!(m.bootstrap_script(), "/work/vcpkg/bootstrap-vcpkg.bat");
}

#[test]
fn the_tree_is_reported_where_a_directory_was_found() {
    let m = VcpkgManager::new("/work", Platform::Linux);
    assert_eq!(m.is_ffmpeg_extracted(true), Some(String::from("/work/ffmpeg")));
    assert_eq!(m.is_ffmpeg_extracted(false), None);
}

#[test]
fn the_mirrors_come_in_their_order() {
    assert_eq!(
        VcpkgManager::mirrors(),
        vec![
            String::from("https://github.com/Microsoft/vcpkg.git"),
            String::from("https://gitee.com/mirrors/vcpkg.git"),
            String::from("https://github.com.cnpmjs.org/Microsoft/vcpkg.git"),
        ]
    );
}

#[test]
fn the_clone_is_shallow() {
    let m = VcpkgManager::new("/work", Platform::Linux);
    assert_eq!(
        m.clone_arguments("https://example.org/vcpkg.git"),
        vec![
            String::from("clone"),
            String::from("--depth"),
            String::from("1"),
            String::from("https://example.org/vcpkg.git"),
            String::from("/work/vcpkg"),
        ]
    );
}

#[test]
fn the_requirement_names_package_features_and_triplet() {
    let m = VcpkgManager::new("/work", Platform::Windows);
    let r = m.requirement();
    assert_eq!(r.name, "ffmpeg");
    assert_eq!(r.features, features());
    assert_eq!(r.triplet, "x64-windows-static");
    assert_eq!(VcpkgManager::required_features(), features());
    assert_eq!(r.install_spec(), "ffmpeg[x264,x265,vpx]:x64-windows-static");
    assert_eq!(r.remove_spec(), "ffmpeg:x64-windows-static");
}

#[test]
fn the_tool_is_asked_by_list_install_and_remove() {
    let r = VcpkgManager::new("/work", Platform::Linux).requirement();
    assert_eq!(r.list_arguments(), vec![String::from("list"), String::from("ffmpeg")]);
    assert_eq!(
        r.install_arguments(),
        vec![String::from("install"), String::from("ffmpeg[x264,x265,vpx]:x64-linux")]
    );
    assert_eq!(
        r.remove_arguments(),
        vec![String::from("remove"), String::from("ffmpeg:x64-linux")]
    );
    assert_eq!(VcpkgManager::git_check_arguments(), vec![String::from("--version")]);
}

#[test]
fn the_install_argument_lists_the_features() {
    let mut r = PackageRequirement {
        name: String::from("ffmpeg"),
        features: vec![String::from("x264")],
        triplet: String::from("x64-linux"),
    };
    assert_eq!(r.install_spec(), "ffmpeg[x264]:x64-linux");
    r.features.push(String::from("vpx"));
    assert_eq!(r.install_spec(), "ffmpeg[x264,vpx]:x64-linux");
    r.features.clear();
    assert_eq!(r.install_spec(), "ffmpeg:x64-linux");
    assert_eq!(r.remove_spec(), "ffmpeg:x64-linux");
}

#[test]
fn a_listing_with_triplet_and_features_passes_the_check() {
    let m = VcpkgManager::new("/work", Platform::Linux);
    let listing = b"ffmpeg:x64-linux 7.1\nffmpeg[x264]:x64-linux\nffmpeg[x265]:x64-linux\nffmpeg[vpx]:x64-linux\n";
    assert!(m.is_ffmpeg_with_features(listing, &features()));
    assert!(m.is_ffmpeg_with_features(listing, &Vec::new()));
    assert!(m.requirement().is_satisfied_by(listing));
    assert!(m.requirement().is_listed_in(listing));
}

#[test]
fn a_listing_for_another_triplet_fails_the_check() {
    let m = VcpkgManager::new("/work", Platform::Linux);
    let listing = b"ffmpeg:x64-osx 7.1\nffmpeg[x264]:x64-osx\nffmpeg[x265]:x64-osx\nffmpeg[vpx]:x64-osx\n";
    assert!(!m.is_ffmpeg_with_features(listing, &features()));
    assert!(!m.is_ffmpeg_with_features(listing, &Vec::new()));
    assert!(!m.requirement().is_satisfied_by(listing));
    assert!(!m.requirement().is_listed_in(listing));
    let m = VcpkgManager::new("/work", Platform::MacOs);
    assert!(m.is_ffmpeg_with_features(listing, &features()));
}

#[test]
fn a_listing_without_a_feature_fails_the_check() {
    let m = VcpkgManager::new("/work", Platform::Linux);
    let listing = b"ffmpeg:x64-linux 7.1\nffmpeg[x264]:x64-linux\nffmpeg[vpx]:x64-linux\n";
    assert!(!m.is_ffmpeg_with_features(listing, &features()));
    assert!(m.requirement().is_listed_in(listing));
    assert!(!m.is_ffmpeg_with_features(b"", &features()));
    assert!(!m.is_ffmpeg_with_features(b"x264 x265 vpx x64-linux", &features()));
}

#[test]
fn the_parts_of_the_check_read_plain_text() {
    assert!(names_package(b"... ffmpeg ... x64-linux ...", "ffmpeg", "x64-linux"));
    assert!(!names_package(b"... ffmpeg ...", "ffmpeg", "x64-linux"));
    assert!(!names_package(b"... x64-linux ...", "ffmpeg", "x64-linux"));
    assert!(names_features(b"x264 x265 vpx", &features()));
    assert!(!names_features(b"x264 x265", &features()));
    assert!(names_features(b"", &Vec::new()));
    // A feature name inside another word counts: the check reads text.
    assert!(satisfies(b"ffmpeg x64-linux libx264 x2650 vpxenc", "ffmpeg", "x64-linux", &features()));
}

#[test]
fn the_archive_is_looked_for_among_the_downloads() {
    let m = VcpkgManager::new("/work", Platform::Linux);
    let downloads = vec![
        DirEntry { name: String::from("cmake-3.30.tar.gz"), is_dir: false, modified: 50 },
        DirEntry { name: String::from("ffmpeg-ffmpeg-n7.0.tar.gz"), is_dir: false, modified: 10 },
        DirEntry { name: String::from("ffmpeg-ffmpeg-n7.1.tar.gz"), is_dir: false, modified: 20 },
    ];
    assert_eq!(
        m.find_ffmpeg_archive(&downloads),
        Some(String::from("/work/vcpkg/downloads/ffmpeg-ffmpeg-n7.1.tar.gz"))
    );
    assert_eq!(m.find_ffmpeg_archive(&Vec::new()), None);
}
