use ashfall::bridge::plugin::{plugin_query, PluginInfo};

#[test]
fn test_plugin_info_default_name() {
    let info = PluginInfo::new("Ashfall Bridge", 1);
    assert_eq!(info.name_str(), "Ashfall Bridge");
    assert_eq!(info.info_version, 1);
    assert_eq!(info.version, 1);
}

#[test]
fn test_plugin_info_empty_name() {
    let info = PluginInfo::new("", 1);
    assert_eq!(info.name_str(), "");
}

#[test]
fn test_plugin_info_single_char() {
    let info = PluginInfo::new("A", 1);
    assert_eq!(info.name_str(), "A");
}

#[test]
fn test_plugin_info_long_name() {
    // Long names are fine: the engine reads up to the NUL.
    let name = "X".repeat(300);
    let info = PluginInfo::new(&name, 1);
    assert_eq!(info.name_str().len(), 300);
}

#[test]
fn plugin_info_name_with_nul_is_empty() {
    let info = PluginInfo::new("Ash\0fall", 7);
    assert_eq!(info.name_str(), "");
    assert_eq!(info.version, 7);
}

#[test]
fn test_nvse_plugin_query_ok() {
    let info = plugin_query(Some(1)).expect("accepted");
    assert_eq!(info.name_str(), "Ashfall Bridge");
    assert_eq!(info.version, 1);
    assert_eq!(info.info_version, 1);
}

#[test]
fn test_nvse_plugin_query_null_interface() {
    // Loaded without the extender (plain DLL override): still answers.
    let info = plugin_query(None).expect("accepted");
    assert_eq!(info.name_str(), "Ashfall Bridge");
}

#[test]
fn test_nvse_plugin_query_null_info() {
    // The answer does not depend on where the caller wants it written.
    assert!(plugin_query(Some(1)).is_some());
}

#[test]
fn plugin_query_refuses_an_older_interface() {
    assert!(plugin_query(Some(0)).is_none());
    assert!(plugin_query(Some(5)).is_some());
}
