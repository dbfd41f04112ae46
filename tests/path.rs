use path_ext::{reset_steps, EntryKind, PathExt, ResetStep};

#[test]
fn test_path() {
    let path1 = String::from("Z:\\Movies\\[VCB-Studio] Fate Zero [Ma10p_1080p]\\[VCB-Studio] Fate Zero [04][Ma10p_1080p][x265_flac].mkv");
    println!("full path: {}", path1.full_str());
    println!("file ext: {}", path1.ext_str());
    println!("file stem: {}", path1.stem_str());
    println!("file name: {}", path1.name_str());
    assert_eq!(path1.full_str(), path1.as_str());
    assert_eq!(path1.ext_str(), "mkv");
    assert!(path1.stem_str().ends_with("[VCB-Studio] Fate Zero [04][Ma10p_1080p][x265_flac]"));
    assert_eq!(format!("{}.mkv", path1.stem_str()), path1.name_str());
    let path2 = String::from("Z:\\Movies");
    let path3 = String::from("[VCB-Studio] Fate Zero [Ma10p_1080p]\\[VCB-Studio] Fate Zero [04][Ma10p_1080p][x265_flac].mkv");
    let path4 = path2.merge(&path3);
    println!("merged full path: {}", path4.full_str());
    assert!(path4.starts_with("Z:"));
    assert!(path4.ends_with("[VCB-Studio] Fate Zero [04][Ma10p_1080p][x265_flac].mkv"));
    assert_eq!(path4.ext_str(), "mkv");
}

#[test]
fn parts_of_a_nested_file() {
    let p = "dir/sub/file.tar.gz";
    assert_eq!(p.full_str(), "dir/sub/file.tar.gz");
    assert_eq!(p.name_str(), "file.tar.gz");
    assert_eq!(p.ext_str(), "gz");
    assert_eq!(p.stem_str(), "file.tar");
}

#[test]
fn stem_dot_ext_gives_the_name_back() {
    for p in ["a/b.txt", "x.y.z", "dir/über.tär", "foo.", "/abs/path/report.final.pdf"] {
        let name = p.name_str();
        assert!(!p.ext_str().is_empty() || name.ends_with('.'));
        assert_eq!(format!("{}.{}", p.stem_str(), p.ext_str()), name);
    }
    assert_eq!("dir/über.tär".ext_str(), "tär");
    assert_eq!("dir/über.tär".stem_str(), "über");
}

#[test]
fn trailing_dot_gives_empty_extension() {
    let p = String::from("notes/foo.");
    assert_eq!(p.ext_str(), "");
    assert_eq!(p.stem_str(), "foo");
    assert_eq!(p.name_str(), "foo.");
}

#[test]
fn leading_dot_only_is_no_extension() {
    let p = "home/.bashrc";
    assert_eq!(p.name_str(), ".bashrc");
    assert_eq!(p.ext_str(), "");
    assert_eq!(p.stem_str(), ".bashrc");
    assert_eq!(".config.toml".ext_str(), "toml");
    assert_eq!(".config.toml".stem_str(), ".config");
}

#[test]
fn name_without_dot_has_no_extension() {
    let p = "bin/tool";
    assert_eq!(p.name_str(), "tool");
    assert_eq!(p.ext_str(), "");
    assert_eq!(p.stem_str(), "tool");
}

#[test]
fn paths_without_a_final_name_give_empty_parts() {
    for p in ["/", "", "a/..", ".."] {
        assert_eq!(p.name_str(), "");
        assert_eq!(p.ext_str(), "");
        assert_eq!(p.stem_str(), "");
    }
}

#[test]
fn trailing_separator_still_names_the_last_component() {
    let p = "dir/archive.zip/";
    assert_eq!(p.name_str(), "archive.zip");
    assert_eq!(p.ext_str(), "zip");
}

#[test]
fn merge_drops_root_of_absolute_suffix() {
    let base = String::from("/movies");
    let merged = base.merge("/show/episode.mkv");
    assert_eq!(merged, "/movies/show/episode.mkv");
    assert!(merged.ends_with("movies/show/episode.mkv"));
    assert!(!merged.contains("//"));
}

#[test]
fn merge_of_relative_suffix_concatenates() {
    assert_eq!("a/b".merge("c/d"), "a/b/c/d");
    assert_eq!("base".merge("./x"), "base/./x");
    assert_eq!("base".merge("../x"), "base/../x");
}

#[test]
fn merge_rebuilds_base_from_its_components() {
    assert_eq!("a//b/".merge("c"), "a/b/c");
    assert_eq!("/".merge("/etc/hosts"), "/etc/hosts");
}

#[test]
fn merge_with_empty_suffix_keeps_base() {
    assert_eq!("/srv/data".merge(""), "/srv/data");
    assert_eq!("".merge("x/y"), "x/y");
}

#[test]
fn entry_kind_queries() {
    assert!(EntryKind::File.is_file());
    assert!(!EntryKind::File.is_dir());
    assert!(EntryKind::Dir.is_dir());
    assert!(!EntryKind::Dir.is_file());
    assert!(!EntryKind::Missing.is_file());
    assert!(!EntryKind::Missing.is_dir());
    assert!(!EntryKind::Missing.is_present());
    assert!(EntryKind::Other.is_present());
    assert!(!EntryKind::Other.is_file());
    assert!(!EntryKind::Other.is_dir());
}

#[test]
fn reset_steps_for_each_kind() {
    assert_eq!(reset_steps(EntryKind::Missing), vec![ResetStep::CreateDir]);
    assert_eq!(reset_steps(EntryKind::File), vec![ResetStep::RemoveFile, ResetStep::CreateDir]);
    assert_eq!(reset_steps(EntryKind::Dir), vec![ResetStep::RemoveDirAll, ResetStep::CreateDir]);
    assert_eq!(reset_steps(EntryKind::Other), vec![ResetStep::RemoveDirAll, ResetStep::CreateDir]);
}

#[test]
fn second_reset_takes_the_same_steps() {
    let first = reset_steps(EntryKind::Dir);
    assert_eq!(*first.last().unwrap(), ResetStep::CreateDir);
    let second = reset_steps(EntryKind::Dir);
    assert_eq!(first, second);
}
