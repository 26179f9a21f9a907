use lighty_launcher::loader::LoaderKind;
use lighty_launcher::manifest::resolve_main_class;
use lighty_launcher::optifine::{
    absolutize_optifine_link, find_downloadx_href, find_mirror_link, optifine_download_url,
    optifine_downloads_url, parse_jar_name, parse_x_token, pick_mirror_link, segment_between,
};
use lighty_launcher::version::Version;

#[test]
fn test_downloads_url() {
    assert_eq!(optifine_downloads_url(), "https://optifine.net/downloads");
}

#[test]
fn test_find_mirror_link_in_page() {
    let html = r#"<html><body>
        <a href="adloadx?f=OptiFine_1.19.4_HD_U_I4.jar">Mirror</a>
        <a href="other">Download</a>
        <a href="adloadx?f=OptiFine_1.18.2_HD_U_H7.jar">Mirror</a>
    </body></html>"#;
    assert_eq!(
        find_mirror_link(html, "1.18.2").unwrap(),
        "adloadx?f=OptiFine_1.18.2_HD_U_H7.jar"
    );
    assert!(find_mirror_link(html, "1.12.2").is_none());
}

#[test]
fn test_find_downloadx_href_in_page() {
    let html = r#"<html><body>
        <a href="index.html">Home</a>
        <a href="downloadx?f=OptiFine_1.18.2_HD_U_H7.jar&x=9a1b">Download</a>
    </body></html>"#;
    assert_eq!(
        find_downloadx_href(html).unwrap(),
        "downloadx?f=OptiFine_1.18.2_HD_U_H7.jar&x=9a1b"
    );
    assert!(find_downloadx_href("<html><a href=\"x\">y</a></html>").is_none());
}

#[test]
fn test_pick_mirror_link_first_matching() {
    let anchors = vec![
        ("adloadx?f=OptiFine_1.19.4_HD_U_I4.jar".to_string(), "Mirror".to_string()),
        ("adloadx?f=OptiFine_1.18.2_HD_U_H7.jar".to_string(), "Download".to_string()),
        ("adloadx?f=OptiFine_1.18.2_HD_U_H7.jar".to_string(), "Mirror".to_string()),
        ("adloadx?f=OptiFine_1.18.2_HD_U_H6.jar".to_string(), "Mirror".to_string()),
    ];
    // The 1.19.4 anchor fails the version filter, the second fails the
    // Mirror filter; the third is the first full match.
    assert_eq!(
        pick_mirror_link(&anchors, "1.18.2").unwrap(),
        "adloadx?f=OptiFine_1.18.2_HD_U_H7.jar"
    );
}

#[test]
fn test_pick_mirror_link_none() {
    let anchors = vec![("somewhere".to_string(), "Mirror".to_string())];
    assert!(pick_mirror_link(&anchors, "1.18.2").is_none());
}

#[test]
fn test_absolutize() {
    assert_eq!(
        absolutize_optifine_link("adloadx?f=OptiFine_1.18.2_HD_U_H7.jar"),
        "https://optifine.net/adloadx?f=OptiFine_1.18.2_HD_U_H7.jar"
    );
    assert_eq!(
        absolutize_optifine_link("http://optifine.net/adloadx?f=x.jar"),
        "http://optifine.net/adloadx?f=x.jar"
    );
}

#[test]
fn test_parse_download_link() {
    let href = "downloadx?f=OptiFine_1.18.2_HD_U_H7.jar&x=9a1b2c3d";
    assert_eq!(parse_jar_name(href).unwrap(), "OptiFine_1.18.2_HD_U_H7.jar");
    assert_eq!(parse_x_token(href).unwrap(), "9a1b2c3d");
    assert_eq!(
        optifine_download_url("OptiFine_1.18.2_HD_U_H7.jar", "9a1b2c3d"),
        "https://optifine.net/downloadx?f=OptiFine_1.18.2_HD_U_H7.jar&x=9a1b2c3d"
    );
}

#[test]
fn test_parse_download_link_missing_parts() {
    assert!(parse_x_token("downloadx?f=a.jar").is_none());
    assert!(parse_jar_name("nothing here").is_none());
}

#[test]
fn test_segment_between() {
    assert_eq!(segment_between("a=1&b=2&c=3", "b=", "&").unwrap(), "2");
    assert_eq!(segment_between("a=1&b=2", "b=", "&").unwrap(), "2");
    assert!(segment_between("a=1", "b=", "&").is_none());
}

#[test]
fn test_optifine_client_lands_in_profile() {
    let v = Version::new("sodacraft", "optifine", "", "1.18.2", "/data");
    assert_eq!(v.get_client_path(), "/data/sodacraft/sodacraft.jar");
    let main = resolve_main_class(LoaderKind::OptiFine, "optifine", &None, &None).unwrap();
    assert_eq!(main, "optifine.InstallerFrame");
}
