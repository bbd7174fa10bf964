use frpc::config::typescript::{output_file_name, Config as TsConfig};
use frpc::config::{manifest_dir, out_dir, Config};

#[test]
fn directories() {
    assert_eq!(manifest_dir(Some("/m".into())), "/m");
    assert_eq!(manifest_dir(None), "./");
    assert_eq!(out_dir(Some("/t".into()), Some("/c".into()), Some("/m".into())), "/t");
    assert_eq!(out_dir(None, Some("/c".into()), Some("/m".into())), "/c");
    assert_eq!(out_dir(None, None, Some("/m".into())), "/m");
    assert_eq!(out_dir(None, None, None), "./");
}

#[test]
fn typescript_output() {
    let mut config = TsConfig::with_out_dir("out".into());
    assert_eq!(config.import_line(), "import* as use from './databuf.lib'\n");
    config.preserve_import_extension = true;
    assert_eq!(config.import_line(), "import* as use from './databuf.lib.ts'\n");
    assert_eq!(output_file_name("EchoTest"), "EchoTest.ts");
    let all = Config { typescript: Some(config) };
    assert!(all.typescript.is_some());
    assert!(Config::default().typescript.is_none());
}
