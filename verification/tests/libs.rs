use unity_rs::libs::{get, get_value, LibError};
use unity_rs::loader::{lib_name, lib_name_from, lib_path, sym_name, sym_outcome};
use unity_rs::text::{has_nul_byte, str_eq};

#[test]
fn get_value_first_entry() {
    assert_eq!(get_value("il2cpp_init"), Some("GdnPlVZEdxf"));
}

#[test]
fn get_value_last_entry() {
    assert_eq!(
        get_value("il2cpp_unity_set_android_network_up_state_func"),
        Some("vq_ROHDlwlL")
    );
}

#[test]
fn get_value_middle_entries() {
    assert_eq!(get_value("il2cpp_domain_get"), Some("dUunpQADaAk"));
    assert_eq!(get_value("il2cpp_string_new"), Some("moZkrEOxnod"));
    assert_eq!(get_value("il2cpp_gc_get_used_size"), Some("_jtTAs_IieI"));
}

#[test]
fn get_value_name_that_extends_another() {
    assert_eq!(get_value("il2cpp_init_utf16"), Some("xeESwBbuab_"));
    assert_eq!(get_value("il2cpp_string_new_len"), Some("HiNmwaRQnUU"));
}

#[test]
fn get_value_unknown_names() {
    assert_eq!(get_value("il2cpp_ini"), None);
    assert_eq!(get_value("il2cpp_init "), None);
    assert_eq!(get_value("IL2CPP_INIT"), None);
    assert_eq!(get_value(""), None);
    assert_eq!(get_value("mono_jit_init"), None);
}

#[test]
fn get_value_does_not_map_obfuscated_names() {
    assert_eq!(get_value("GdnPlVZEdxf"), None);
}

#[test]
fn get_translates_exported_names() {
    assert_eq!(get("il2cpp_shutdown"), "nKyghkcwxJe");
    assert_eq!(get("il2cpp_object_new"), "WCEoPQXKscc");
}

#[test]
fn get_leaves_other_names_unchanged() {
    assert_eq!(get("mono_runtime_invoke"), "mono_runtime_invoke");
    assert_eq!(get(""), "");
    assert_eq!(get("GdnPlVZEdxf"), "GdnPlVZEdxf");
}

#[test]
fn error_messages() {
    assert_eq!(LibError::FailedToLoadLib.message(), "Failed to load library!");
    assert_eq!(LibError::FailedToGetLibName.message(), "Failed to get lib name!");
    assert_eq!(LibError::FailedToGetLibPath.message(), "Failed to get lib path!");
    assert_eq!(
        LibError::FailedToGetFnPtr("abc".to_string()).message(),
        "Failed to get function pointer: abc"
    );
    assert_eq!(LibError::FailedToCreateCString.message(), "Failed to create C-String");
}

#[test]
fn strings_compare_by_content() {
    assert!(str_eq("abc", "abc"));
    assert!(!str_eq("abc", "abd"));
    assert!(!str_eq("abc", "ab"));
    assert!(str_eq("", ""));
    assert!(str_eq("ünï", "ünï"));
}

#[test]
fn nul_bytes_are_found() {
    assert!(has_nul_byte("a\0b"));
    assert!(has_nul_byte("\0"));
    assert!(!has_nul_byte("abc"));
    assert!(!has_nul_byte(""));
}

#[test]
fn sym_name_translates() {
    assert_eq!(sym_name("il2cpp_init"), Ok("GdnPlVZEdxf"));
    assert_eq!(sym_name("mono_jit_init"), Ok("mono_jit_init"));
}

#[test]
fn sym_name_rejects_nul() {
    assert_eq!(sym_name("bad\0name"), Err(LibError::FailedToCreateCString));
}

#[test]
fn sym_outcome_found() {
    assert_eq!(sym_outcome("il2cpp_init", true), Ok(()));
}

#[test]
fn sym_outcome_missing_reports_translated_name() {
    assert_eq!(
        sym_outcome("il2cpp_init", false),
        Err(LibError::FailedToGetFnPtr("GdnPlVZEdxf".to_string()))
    );
    assert_eq!(
        sym_outcome("some_fn", false),
        Err(LibError::FailedToGetFnPtr("some_fn".to_string()))
    );
}

#[test]
fn lib_path_errors() {
    assert_eq!(lib_path(None), Err(LibError::FailedToGetLibPath));
    assert_eq!(lib_path(Some("lib\0.so")), Err(LibError::FailedToCreateCString));
    assert_eq!(lib_path(Some("/usr/lib/libfoo.so")), Ok("/usr/lib/libfoo.so"));
}

#[test]
fn lib_name_not_loaded() {
    assert_eq!(lib_name("/usr/lib/libfoo.so", false), Err(LibError::FailedToLoadLib));
}

#[test]
fn lib_name_is_final_component() {
    assert_eq!(lib_name("/usr/lib/libfoo.so", true), Ok("libfoo.so".to_string()));
    assert_eq!(lib_name("libbar.so", true), Ok("libbar.so".to_string()));
    assert_eq!(lib_name("dir/libbaz.so/.", true), Ok("libbaz.so".to_string()));
}

#[test]
fn lib_name_without_final_component() {
    assert_eq!(lib_name("dir/..", true), Err(LibError::FailedToGetLibName));
    assert_eq!(lib_name("..", true), Err(LibError::FailedToGetLibName));
    assert_eq!(lib_name("/", true), Err(LibError::FailedToGetLibName));
}

#[test]
fn lib_name_from_component() {
    assert_eq!(lib_name_from(None), Err(LibError::FailedToGetLibName));
    assert_eq!(lib_name_from(Some("x.so".to_string())), Ok("x.so".to_string()));
}

#[test]
fn lib_name_of_bare_names() {
    assert_eq!(lib_name("...", true), Ok("...".to_string()));
    assert_eq!(lib_name("libdobby.so", true), Ok("libdobby.so".to_string()));
}

#[test]
fn get_twice_is_get_once() {
    assert_eq!(get(get("il2cpp_init")), get("il2cpp_init"));
    assert_eq!(get(get("il2cpp_free")), "PRfrmVSTTrU");
    assert_eq!(get(get("dlopen")), "dlopen");
}

#[test]
fn lib_name_after_last_slash() {
    assert_eq!(lib_name("path/to/lib", true), Ok("lib".to_string()));
    assert_eq!(lib_name("/libmono.so", true), Ok("libmono.so".to_string()));
}

#[test]
fn lib_name_of_empty_path() {
    assert_eq!(lib_name("", true), Err(LibError::FailedToGetLibName));
}
