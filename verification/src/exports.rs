//! The table of il2cpp exports: each exported name with the obfuscated
//! name under which the runtime exports it.
use vstd::prelude::*;

verus! {

/// Number of entries in the export table.
pub(crate) const EXPORT_COUNT: usize = 234;

/// The export table as a sequence of (exported name, obfuscated name) pairs,
/// in the order in which lookups scan it.
#[verifier::opaque]
pub open spec fn export_table() -> Seq<(Seq<char>, Seq<char>)> {
    seq![
        ("il2cpp_init"@, "GdnPlVZEdxf"@),
        ("il2cpp_init_utf16"@, "xeESwBbuab_"@),
        ("il2cpp_shutdown"@, "nKyghkcwxJe"@),
        ("il2cpp_set_config_dir"@, "XiKOzOdJsYE"@),
        ("il2cpp_set_data_dir"@, "AbJEjDq_zgF"@),
        ("il2cpp_set_temp_dir"@, "JerpDnxOVno"@),
        ("il2cpp_set_commandline_arguments"@, "NkyFkhKjXDP"@),
        ("il2cpp_set_commandline_arguments_utf16"@, "UfNXctJaZQO"@),
        ("il2cpp_set_config_utf16"@, "MJdRIVcUmWY"@),
        ("il2cpp_set_config"@, "igjWeppGXcn"@),
        ("il2cpp_set_memory_callbacks"@, "NPuDEZOXejP"@),
        ("il2cpp_memory_pool_set_region_size"@, "EAFNJ_FIJYK"@),
        ("il2cpp_memory_pool_get_region_size"@, "gdwVBiglIWC"@),
        ("il2cpp_get_corlib"@, "NGbgctWOdID"@),
        ("il2cpp_add_internal_call"@, "kdoNiyv_Qhd"@),
        ("il2cpp_resolve_icall"@, "UWZdnspJd_I"@),
        ("il2cpp_alloc"@, "KaCKWSaBPCP"@),
        ("il2cpp_free"@, "PRfrmVSTTrU"@),
        ("il2cpp_array_class_get"@, "LAiuXZUDdNh"@),
        ("il2cpp_array_length"@, "QRIjzueyGZT"@),
        ("il2cpp_array_get_byte_length"@, "jzmYhGGuWvJ"@),
        ("il2cpp_array_new"@, "Nlz_loEWfav"@),
        ("il2cpp_array_new_specific"@, "KBFdoRXhdON"@),
        ("il2cpp_array_new_full"@, "cJrJgWxPWSl"@),
        ("il2cpp_bounded_array_class_get"@, "fyViQqbTTPe"@),
        ("il2cpp_array_element_size"@, "rYLHFyGgORz"@),
        ("il2cpp_assembly_get_image"@, "WrPjnXSxwvx"@),
        ("il2cpp_class_for_each"@, "bU_ybtImqeh"@),
        ("il2cpp_class_enum_basetype"@, "GgOmkULknVl"@),
        ("il2cpp_class_is_inited"@, "gnQolWebGMV"@),
        ("il2cpp_class_is_generic"@, "zLPRtXMqDka"@),
        ("il2cpp_class_is_inflated"@, "vkWLZpdNfvo"@),
        ("il2cpp_class_is_assignable_from"@, "XkjrtGAMQyu"@),
        ("il2cpp_class_is_subclass_of"@, "bXykbnZeM__"@),
        ("il2cpp_class_has_parent"@, "rFwPWfVVfiU"@),
        ("il2cpp_class_from_il2cpp_type"@, "OCipriHLgON"@),
        ("il2cpp_class_from_name"@, "lQyvUscAGEB"@),
        ("il2cpp_class_from_system_type"@, "UgeTybrtfli"@),
        ("il2cpp_class_get_element_class"@, "rLtGEybL_mo"@),
        ("il2cpp_class_get_events"@, "WYodECZGcFP"@),
        ("il2cpp_class_get_fields"@, "QZg_eWEoySR"@),
        ("il2cpp_class_get_nested_types"@, "gcfwVglwRWR"@),
        ("il2cpp_class_get_interfaces"@, "wfeudlBuJmW"@),
        ("il2cpp_class_get_properties"@, "ONYXmIhnfVE"@),
        ("il2cpp_class_get_property_from_name"@, "fHtXWY_hYew"@),
        ("il2cpp_class_get_field_from_name"@, "pwnfMkbaSCR"@),
        ("il2cpp_class_get_methods"@, "XnXhgwwvBVH"@),
        ("il2cpp_class_get_method_from_name"@, "LmZVehSCtkU"@),
        ("il2cpp_class_get_name"@, "dswOlGpdlQB"@),
        ("il2cpp_type_get_name_chunked"@, "XvW_nQkLeKA"@),
        ("il2cpp_class_get_namespace"@, "WBDCidKvO_s"@),
        ("il2cpp_class_get_parent"@, "WnhlxMYyqXH"@),
        ("il2cpp_class_get_declaring_type"@, "WrizOXPSfDX"@),
        ("il2cpp_class_instance_size"@, "cDrnGzyYYCV"@),
        ("il2cpp_class_num_fields"@, "yZLIuPWSRcp"@),
        ("il2cpp_class_is_valuetype"@, "NjDEOSOBNto"@),
        ("il2cpp_class_value_size"@, "RtljfJxmxEU"@),
        ("il2cpp_class_is_blittable"@, "HXApjJi_zkt"@),
        ("il2cpp_class_get_flags"@, "PfeRozEYgvw"@),
        ("il2cpp_class_is_abstract"@, "WzhlplRFtZf"@),
        ("il2cpp_class_is_interface"@, "WssGtOLCvEB"@),
        ("il2cpp_class_array_element_size"@, "EumfCrOhMGs"@),
        ("il2cpp_class_from_type"@, "smBQHSuYocJ"@),
        ("il2cpp_class_get_type"@, "iFUPHlNvxHm"@),
        ("il2cpp_class_get_type_token"@, "gKusixTMGyH"@),
        ("il2cpp_class_has_attribute"@, "NvlrWGlVUQv"@),
        ("il2cpp_class_has_references"@, "sXmkDWLesBx"@),
        ("il2cpp_class_is_enum"@, "UlxOBFbttaI"@),
        ("il2cpp_class_get_image"@, "DhWncAFKTmf"@),
        ("il2cpp_class_get_assemblyname"@, "utbv_l_vaJh"@),
        ("il2cpp_class_get_rank"@, "YlMdMSGIETk"@),
        ("il2cpp_class_get_data_size"@, "eHFwUICBnYH"@),
        ("il2cpp_class_get_static_field_data"@, "aNHKESETrgt"@),
        ("il2cpp_class_get_bitmap_size"@, "WkzPjgTvSyM"@),
        ("il2cpp_class_get_bitmap"@, "VhiRbDWWYeu"@),
        ("il2cpp_stats_dump_to_file"@, "qxUbeLx_JRW"@),
        ("il2cpp_stats_get_value"@, "mpPYSsTepIF"@),
        ("il2cpp_domain_get"@, "dUunpQADaAk"@),
        ("il2cpp_domain_assembly_open"@, "bzhujLBvtDQ"@),
        ("il2cpp_domain_get_assemblies"@, "kSNWlvRcuDN"@),
        ("il2cpp_raise_exception"@, "YDFMwomdxHH"@),
        ("il2cpp_exception_from_name_msg"@, "lfkDsxPTfxx"@),
        ("il2cpp_get_exception_argument_null"@, "fOphHxtGNbi"@),
        ("il2cpp_format_exception"@, "PWiBDLAcqEE"@),
        ("il2cpp_format_stack_trace"@, "hYTrHKAtiVN"@),
        ("il2cpp_unhandled_exception"@, "yDsipRDieRK"@),
        ("il2cpp_native_stack_trace"@, "Tup_trWcPft"@),
        ("il2cpp_field_get_flags"@, "kPkuadGKLtY"@),
        ("il2cpp_field_get_name"@, "YsrafFiNMPb"@),
        ("il2cpp_field_get_parent"@, "SCpPaWMGYuU"@),
        ("il2cpp_field_get_offset"@, "YnxEeoyzDsw"@),
        ("il2cpp_field_get_type"@, "vrXvLlMNtUF"@),
        ("il2cpp_field_get_value"@, "jkItflHvEgX"@),
        ("il2cpp_field_get_value_object"@, "nTqDKByJShq"@),
        ("il2cpp_field_has_attribute"@, "GBoRqEfHSur"@),
        ("il2cpp_field_set_value"@, "uEATVRQMULc"@),
        ("il2cpp_field_static_get_value"@, "iL_PocEDOUL"@),
        ("il2cpp_field_static_set_value"@, "bWETBqDYXSG"@),
        ("il2cpp_field_set_value_object"@, "EZWtZRckXge"@),
        ("il2cpp_field_is_literal"@, "ZpVlhnPyPjF"@),
        ("il2cpp_gc_collect"@, "cxFieV_KvfU"@),
        ("il2cpp_gc_collect_a_little"@, "FLnvWMirTvD"@),
        ("il2cpp_gc_start_incremental_collection"@, "WsXbVfkwBFl"@),
        ("il2cpp_gc_disable"@, "OrADuiKfRaV"@),
        ("il2cpp_gc_enable"@, "OnAc_HRKlnn"@),
        ("il2cpp_gc_is_disabled"@, "CGhT_qkYMhz"@),
        ("il2cpp_gc_set_mode"@, "knvVyiMUlFH"@),
        ("il2cpp_gc_get_max_time_slice_ns"@, "xmHvAlsCgvg"@),
        ("il2cpp_gc_set_max_time_slice_ns"@, "IAHkloIMjeA"@),
        ("il2cpp_gc_is_incremental"@, "ezlpJ_GUuck"@),
        ("il2cpp_gc_get_used_size"@, "_jtTAs_IieI"@),
        ("il2cpp_gc_get_heap_size"@, "jlxgOdsyfel"@),
        ("il2cpp_gc_wbarrier_set_field"@, "DDuUjGcKUaj"@),
        ("il2cpp_gc_has_strict_wbarriers"@, "XIBLQ_EpJtY"@),
        ("il2cpp_gc_set_external_allocation_tracker"@, "YMqyW_Qt_Ld"@),
        ("il2cpp_gc_set_external_wbarrier_tracker"@, "yG_WSutBToN"@),
        ("il2cpp_gc_foreach_heap"@, "dNQnXjbmJKE"@),
        ("il2cpp_stop_gc_world"@, "mIgMYhkAJMu"@),
        ("il2cpp_start_gc_world"@, "pqnyVuh_ujd"@),
        ("il2cpp_gc_alloc_fixed"@, "iVJSVIQCwWl"@),
        ("il2cpp_gc_free_fixed"@, "xvhyUdIbVgy"@),
        ("il2cpp_gchandle_new"@, "HRWlelkrVPt"@),
        ("il2cpp_gchandle_new_weakref"@, "mZCAEcHuXyK"@),
        ("il2cpp_gchandle_get_target"@, "TxCTtfvbDXh"@),
        ("il2cpp_gchandle_free"@, "bETTzCiChhf"@),
        ("il2cpp_gchandle_foreach_get_target"@, "OhgKQzlOETr"@),
        ("il2cpp_object_header_size"@, "HJPxFieAabM"@),
        ("il2cpp_array_object_header_size"@, "KrZKSmKtPJy"@),
        ("il2cpp_offset_of_array_length_in_array_object_header"@, "ipNioOb_TTJ"@),
        ("il2cpp_offset_of_array_bounds_in_array_object_header"@, "OpdiQkwodGd"@),
        ("il2cpp_allocation_granularity"@, "jDHAPfbJGb_"@),
        ("il2cpp_unity_liveness_allocate_struct"@, "YxvMvG_EOgK"@),
        ("il2cpp_unity_liveness_calculation_from_root"@, "fxW_ygbYUpI"@),
        ("il2cpp_unity_liveness_calculation_from_statics"@, "cmnrTHTRjeg"@),
        ("il2cpp_unity_liveness_finalize"@, "ckudBVjX_tc"@),
        ("il2cpp_unity_liveness_free_struct"@, "rQ_xDeHwdph"@),
        ("il2cpp_method_get_return_type"@, "iOGphJxpUYi"@),
        ("il2cpp_method_get_declaring_type"@, "SEwCkKakqHn"@),
        ("il2cpp_method_get_name"@, "jgmSLpUuObu"@),
        ("il2cpp_method_get_from_reflection"@, "bY_ngrNPSBp"@),
        ("il2cpp_method_get_object"@, "uJokkJUjpKT"@),
        ("il2cpp_method_is_generic"@, "RaDdigmblJd"@),
        ("il2cpp_method_is_inflated"@, "MHOEcxWMXnX"@),
        ("il2cpp_method_is_instance"@, "FYYVhKttIeM"@),
        ("il2cpp_method_get_param_count"@, "SSrrPJtgRsy"@),
        ("il2cpp_method_get_param"@, "OiCJwDuUwiM"@),
        ("il2cpp_method_get_class"@, "gOZrNrFqRag"@),
        ("il2cpp_method_has_attribute"@, "ZXROjjfaFd_"@),
        ("il2cpp_method_get_flags"@, "niJNnKvNPvP"@),
        ("il2cpp_method_get_token"@, "YMPcFDDspTK"@),
        ("il2cpp_method_get_param_name"@, "TH_aVezXhJW"@),
        ("il2cpp_property_get_flags"@, "MIEDlUbeuMx"@),
        ("il2cpp_property_get_get_method"@, "CStyEE_NTSO"@),
        ("il2cpp_property_get_set_method"@, "ErevOpxaNmP"@),
        ("il2cpp_property_get_name"@, "ZQdUTOLZwVf"@),
        ("il2cpp_property_get_parent"@, "sbOVZuGEH_y"@),
        ("il2cpp_object_get_class"@, "qbFQR_fYihi"@),
        ("il2cpp_object_get_size"@, "dQqlXFwQrJp"@),
        ("il2cpp_object_get_virtual_method"@, "uqHFVbHaEcE"@),
        ("il2cpp_object_new"@, "WCEoPQXKscc"@),
        ("il2cpp_object_unbox"@, "syjaQBHbEba"@),
        ("il2cpp_value_box"@, "NrgBtNRZraW"@),
        ("il2cpp_monitor_enter"@, "awVxxaDkin_"@),
        ("il2cpp_monitor_try_enter"@, "BcAaeBubdxr"@),
        ("il2cpp_monitor_exit"@, "CKZFssaXtSR"@),
        ("il2cpp_monitor_pulse"@, "BuJvkFvGnJJ"@),
        ("il2cpp_monitor_pulse_all"@, "XSZeuqqCyAD"@),
        ("il2cpp_monitor_wait"@, "nNNrsaoljaS"@),
        ("il2cpp_monitor_try_wait"@, "mDSBbarFRGX"@),
        ("il2cpp_runtime_invoke"@, "KsaFALsaHZl"@),
        ("il2cpp_runtime_invoke_convert_args"@, "CcKieJOuNhD"@),
        ("il2cpp_runtime_class_init"@, "HpawpbBmsnf"@),
        ("il2cpp_runtime_object_init"@, "JEyEEDZogZe"@),
        ("il2cpp_runtime_object_init_exception"@, "kFJQOElRJQz"@),
        ("il2cpp_runtime_unhandled_exception_policy_set"@, "yuiRVqneHRq"@),
        ("il2cpp_string_length"@, "DDuIaqSaJPb"@),
        ("il2cpp_string_chars"@, "CAqjfDvGfOU"@),
        ("il2cpp_string_new"@, "moZkrEOxnod"@),
        ("il2cpp_string_new_len"@, "HiNmwaRQnUU"@),
        ("il2cpp_string_new_utf16"@, "FQBIXIelhkZ"@),
        ("il2cpp_string_new_wrapper"@, "sodVkROQWPR"@),
        ("il2cpp_string_intern"@, "browFOTyQoT"@),
        ("il2cpp_string_is_interned"@, "TmLQdbMHyHl"@),
        ("il2cpp_thread_current"@, "XHlseHzpXli"@),
        ("il2cpp_thread_attach"@, "yXKCkTHabfE"@),
        ("il2cpp_thread_detach"@, "mUkuUnAcYiz"@),
        ("il2cpp_thread_get_all_attached_threads"@, "rpORpEUDUUG"@),
        ("il2cpp_is_vm_thread"@, "YTwnbYaBvtF"@),
        ("il2cpp_current_thread_walk_frame_stack"@, "_kIiiFONOWj"@),
        ("il2cpp_thread_walk_frame_stack"@, "txCdvPkSQ_U"@),
        ("il2cpp_current_thread_get_top_frame"@, "aBVnkQmVagn"@),
        ("il2cpp_thread_get_top_frame"@, "QfgAeisWpKk"@),
        ("il2cpp_current_thread_get_frame_at"@, "ljruylFjhzQ"@),
        ("il2cpp_thread_get_frame_at"@, "vfdtQi_BLnN"@),
        ("il2cpp_current_thread_get_stack_depth"@, "_jfwrZMaxrS"@),
        ("il2cpp_thread_get_stack_depth"@, "zxvFVDsgBzv"@),
        ("il2cpp_override_stack_backtrace"@, "AgtoKcmHcDU"@),
        ("il2cpp_type_get_object"@, "tRAcfCA_cJ_"@),
        ("il2cpp_type_get_type"@, "YqifqTyuPPh"@),
        ("il2cpp_type_get_class_or_element_class"@, "T__hQLBTfcK"@),
        ("il2cpp_type_get_name"@, "hLEJNjZDdWu"@),
        ("il2cpp_type_is_byref"@, "CLNqWpxdFVp"@),
        ("il2cpp_type_get_attrs"@, "Uz_cHOJRUgo"@),
        ("il2cpp_type_equals"@, "AridOgtMmI_"@),
        ("il2cpp_type_get_assembly_qualified_name"@, "rrU_vIEwXbL"@),
        ("il2cpp_type_get_reflection_name"@, "snWGrBGxadY"@),
        ("il2cpp_type_is_static"@, "ffYPiNKgTWN"@),
        ("il2cpp_type_is_pointer_type"@, "BgeV_bMfWIG"@),
        ("il2cpp_image_get_assembly"@, "BNuYOmYhPYR"@),
        ("il2cpp_image_get_name"@, "ikzAkyTEACE"@),
        ("il2cpp_image_get_filename"@, "oZQRiHguhsf"@),
        ("il2cpp_image_get_entry_point"@, "btgtJbGbhiv"@),
        ("il2cpp_image_get_class_count"@, "CQzpQfpTRri"@),
        ("il2cpp_image_get_class"@, "zUdXVkYrdqv"@),
        ("il2cpp_capture_memory_snapshot"@, "mplYajYvgG_"@),
        ("il2cpp_free_captured_memory_snapshot"@, "EFaaD_TxFmT"@),
        ("il2cpp_set_find_plugin_callback"@, "mpxpzMXGXjG"@),
        ("il2cpp_register_log_callback"@, "oHdI_cT_Dzm"@),
        ("il2cpp_debugger_set_agent_options"@, "yTOgoQPzSCr"@),
        ("il2cpp_is_debugger_attached"@, "hJkADbjlltQ"@),
        ("il2cpp_register_debugger_agent_transport"@, "hKyInMXWsOU"@),
        ("il2cpp_debug_get_method_info"@, "FqpgSyKjrdo"@),
        ("il2cpp_unity_install_unitytls_interface"@, "JigYUjFcHix"@),
        ("il2cpp_custom_attrs_from_class"@, "wDJQiJNSxdU"@),
        ("il2cpp_custom_attrs_from_method"@, "hdgWuNBjZHE"@),
        ("il2cpp_custom_attrs_from_field"@, "TSNtIHFohaO"@),
        ("il2cpp_custom_attrs_get_attr"@, "jtFcNDldAcC"@),
        ("il2cpp_custom_attrs_has_attr"@, "iFJnoOxafey"@),
        ("il2cpp_custom_attrs_construct"@, "KPoSbzPCuBP"@),
        ("il2cpp_custom_attrs_free"@, "YMpwqonKaMS"@),
        ("il2cpp_class_set_userdata"@, "IN_yUMndXZh"@),
        ("il2cpp_class_get_userdata_offset"@, "iDJFVOADMyw"@),
        ("il2cpp_set_default_thread_affinity"@, "ygXP_vcjIjp"@),
        ("il2cpp_unity_set_android_network_up_state_func"@, "vq_ROHDlwlL"@),
    ]
}

/// The export table itself, entry for entry equal to `export_table()`.
pub(crate) fn exports() -> (table: [(&'static str, &'static str); 234])
    ensures
        table@.len() == export_table().len(),
        forall|i: int|
            0 <= i < table@.len() ==> #[trigger] table@[i].0@ == export_table()[i].0
                && table@[i].1@ == export_table()[i].1,
{
    proof {
        reveal(export_table);
    }
    [
        ("il2cpp_init", "GdnPlVZEdxf"),
        ("il2cpp_init_utf16", "xeESwBbuab_"),
        ("il2cpp_shutdown", "nKyghkcwxJe"),
        ("il2cpp_set_config_dir", "XiKOzOdJsYE"),
        ("il2cpp_set_data_dir", "AbJEjDq_zgF"),
        ("il2cpp_set_temp_dir", "JerpDnxOVno"),
        ("il2cpp_set_commandline_arguments", "NkyFkhKjXDP"),
        ("il2cpp_set_commandline_arguments_utf16", "UfNXctJaZQO"),
        ("il2cpp_set_config_utf16", "MJdRIVcUmWY"),
        ("il2cpp_set_config", "igjWeppGXcn"),
        ("il2cpp_set_memory_callbacks", "NPuDEZOXejP"),
        ("il2cpp_memory_pool_set_region_size", "EAFNJ_FIJYK"),
        ("il2cpp_memory_pool_get_region_size", "gdwVBiglIWC"),
        ("il2cpp_get_corlib", "NGbgctWOdID"),
        ("il2cpp_add_internal_call", "kdoNiyv_Qhd"),
        ("il2cpp_resolve_icall", "UWZdnspJd_I"),
        ("il2cpp_alloc", "KaCKWSaBPCP"),
        ("il2cpp_free", "PRfrmVSTTrU"),
        ("il2cpp_array_class_get", "LAiuXZUDdNh"),
        ("il2cpp_array_length", "QRIjzueyGZT"),
        ("il2cpp_array_get_byte_length", "jzmYhGGuWvJ"),
        ("il2cpp_array_new", "Nlz_loEWfav"),
        ("il2cpp_array_new_specific", "KBFdoRXhdON"),
        ("il2cpp_array_new_full", "cJrJgWxPWSl"),
        ("il2cpp_bounded_array_class_get", "fyViQqbTTPe"),
        ("il2cpp_array_element_size", "rYLHFyGgORz"),
        ("il2cpp_assembly_get_image", "WrPjnXSxwvx"),
        ("il2cpp_class_for_each", "bU_ybtImqeh"),
        ("il2cpp_class_enum_basetype", "GgOmkULknVl"),
        ("il2cpp_class_is_inited", "gnQolWebGMV"),
        ("il2cpp_class_is_generic", "zLPRtXMqDka"),
        ("il2cpp_class_is_inflated", "vkWLZpdNfvo"),
        ("il2cpp_class_is_assignable_from", "XkjrtGAMQyu"),
        ("il2cpp_class_is_subclass_of", "bXykbnZeM__"),
        ("il2cpp_class_has_parent", "rFwPWfVVfiU"),
        ("il2cpp_class_from_il2cpp_type", "OCipriHLgON"),
        ("il2cpp_class_from_name", "lQyvUscAGEB"),
        ("il2cpp_class_from_system_type", "UgeTybrtfli"),
        ("il2cpp_class_get_element_class", "rLtGEybL_mo"),
        ("il2cpp_class_get_events", "WYodECZGcFP"),
        ("il2cpp_class_get_fields", "QZg_eWEoySR"),
        ("il2cpp_class_get_nested_types", "gcfwVglwRWR"),
        ("il2cpp_class_get_interfaces", "wfeudlBuJmW"),
        ("il2cpp_class_get_properties", "ONYXmIhnfVE"),
        ("il2cpp_class_get_property_from_name", "fHtXWY_hYew"),
        ("il2cpp_class_get_field_from_name", "pwnfMkbaSCR"),
        ("il2cpp_class_get_methods", "XnXhgwwvBVH"),
        ("il2cpp_class_get_method_from_name", "LmZVehSCtkU"),
        ("il2cpp_class_get_name", "dswOlGpdlQB"),
        ("il2cpp_type_get_name_chunked", "XvW_nQkLeKA"),
        ("il2cpp_class_get_namespace", "WBDCidKvO_s"),
        ("il2cpp_class_get_parent", "WnhlxMYyqXH"),
        ("il2cpp_class_get_declaring_type", "WrizOXPSfDX"),
        ("il2cpp_class_instance_size", "cDrnGzyYYCV"),
        ("il2cpp_class_num_fields", "yZLIuPWSRcp"),
        ("il2cpp_class_is_valuetype", "NjDEOSOBNto"),
        ("il2cpp_class_value_size", "RtljfJxmxEU"),
        ("il2cpp_class_is_blittable", "HXApjJi_zkt"),
        ("il2cpp_class_get_flags", "PfeRozEYgvw"),
        ("il2cpp_class_is_abstract", "WzhlplRFtZf"),
        ("il2cpp_class_is_interface", "WssGtOLCvEB"),
        ("il2cpp_class_array_element_size", "EumfCrOhMGs"),
        ("il2cpp_class_from_type", "smBQHSuYocJ"),
        ("il2cpp_class_get_type", "iFUPHlNvxHm"),
        ("il2cpp_class_get_type_token", "gKusixTMGyH"),
        ("il2cpp_class_has_attribute", "NvlrWGlVUQv"),
        ("il2cpp_class_has_references", "sXmkDWLesBx"),
        ("il2cpp_class_is_enum", "UlxOBFbttaI"),
        ("il2cpp_class_get_image", "DhWncAFKTmf"),
        ("il2cpp_class_get_assemblyname", "utbv_l_vaJh"),
        ("il2cpp_class_get_rank", "YlMdMSGIETk"),
        ("il2cpp_class_get_data_size", "eHFwUICBnYH"),
        ("il2cpp_class_get_static_field_data", "aNHKESETrgt"),
        ("il2cpp_class_get_bitmap_size", "WkzPjgTvSyM"),
        ("il2cpp_class_get_bitmap", "VhiRbDWWYeu"),
        ("il2cpp_stats_dump_to_file", "qxUbeLx_JRW"),
        ("il2cpp_stats_get_value", "mpPYSsTepIF"),
        ("il2cpp_domain_get", "dUunpQADaAk"),
        ("il2cpp_domain_assembly_open", "bzhujLBvtDQ"),
        ("il2cpp_domain_get_assemblies", "kSNWlvRcuDN"),
        ("il2cpp_raise_exception", "YDFMwomdxHH"),
        ("il2cpp_exception_from_name_msg", "lfkDsxPTfxx"),
        ("il2cpp_get_exception_argument_null", "fOphHxtGNbi"),
        ("il2cpp_format_exception", "PWiBDLAcqEE"),
        ("il2cpp_format_stack_trace", "hYTrHKAtiVN"),
        ("il2cpp_unhandled_exception", "yDsipRDieRK"),
        ("il2cpp_native_stack_trace", "Tup_trWcPft"),
        ("il2cpp_field_get_flags", "kPkuadGKLtY"),
        ("il2cpp_field_get_name", "YsrafFiNMPb"),
        ("il2cpp_field_get_parent", "SCpPaWMGYuU"),
        ("il2cpp_field_get_offset", "YnxEeoyzDsw"),
        ("il2cpp_field_get_type", "vrXvLlMNtUF"),
        ("il2cpp_field_get_value", "jkItflHvEgX"),
        ("il2cpp_field_get_value_object", "nTqDKByJShq"),
        ("il2cpp_field_has_attribute", "GBoRqEfHSur"),
        ("il2cpp_field_set_value", "uEATVRQMULc"),
        ("il2cpp_field_static_get_value", "iL_PocEDOUL"),
        ("il2cpp_field_static_set_value", "bWETBqDYXSG"),
        ("il2cpp_field_set_value_object", "EZWtZRckXge"),
        ("il2cpp_field_is_literal", "ZpVlhnPyPjF"),
        ("il2cpp_gc_collect", "cxFieV_KvfU"),
        ("il2cpp_gc_collect_a_little", "FLnvWMirTvD"),
        ("il2cpp_gc_start_incremental_collection", "WsXbVfkwBFl"),
        ("il2cpp_gc_disable", "OrADuiKfRaV"),
        ("il2cpp_gc_enable", "OnAc_HRKlnn"),
        ("il2cpp_gc_is_disabled", "CGhT_qkYMhz"),
        ("il2cpp_gc_set_mode", "knvVyiMUlFH"),
        ("il2cpp_gc_get_max_time_slice_ns", "xmHvAlsCgvg"),
        ("il2cpp_gc_set_max_time_slice_ns", "IAHkloIMjeA"),
        ("il2cpp_gc_is_incremental", "ezlpJ_GUuck"),
        ("il2cpp_gc_get_used_size", "_jtTAs_IieI"),
        ("il2cpp_gc_get_heap_size", "jlxgOdsyfel"),
        ("il2cpp_gc_wbarrier_set_field", "DDuUjGcKUaj"),
        ("il2cpp_gc_has_strict_wbarriers", "XIBLQ_EpJtY"),
        ("il2cpp_gc_set_external_allocation_tracker", "YMqyW_Qt_Ld"),
        ("il2cpp_gc_set_external_wbarrier_tracker", "yG_WSutBToN"),
        ("il2cpp_gc_foreach_heap", "dNQnXjbmJKE"),
        ("il2cpp_stop_gc_world", "mIgMYhkAJMu"),
        ("il2cpp_start_gc_world", "pqnyVuh_ujd"),
        ("il2cpp_gc_alloc_fixed", "iVJSVIQCwWl"),
        ("il2cpp_gc_free_fixed", "xvhyUdIbVgy"),
        ("il2cpp_gchandle_new", "HRWlelkrVPt"),
        ("il2cpp_gchandle_new_weakref", "mZCAEcHuXyK"),
        ("il2cpp_gchandle_get_target", "TxCTtfvbDXh"),
        ("il2cpp_gchandle_free", "bETTzCiChhf"),
        ("il2cpp_gchandle_foreach_get_target", "OhgKQzlOETr"),
        ("il2cpp_object_header_size", "HJPxFieAabM"),
        ("il2cpp_array_object_header_size", "KrZKSmKtPJy"),
        ("il2cpp_offset_of_array_length_in_array_object_header", "ipNioOb_TTJ"),
        ("il2cpp_offset_of_array_bounds_in_array_object_header", "OpdiQkwodGd"),
        ("il2cpp_allocation_granularity", "jDHAPfbJGb_"),
        ("il2cpp_unity_liveness_allocate_struct", "YxvMvG_EOgK"),
        ("il2cpp_unity_liveness_calculation_from_root", "fxW_ygbYUpI"),
        ("il2cpp_unity_liveness_calculation_from_statics", "cmnrTHTRjeg"),
        ("il2cpp_unity_liveness_finalize", "ckudBVjX_tc"),
        ("il2cpp_unity_liveness_free_struct", "rQ_xDeHwdph"),
        ("il2cpp_method_get_return_type", "iOGphJxpUYi"),
        ("il2cpp_method_get_declaring_type", "SEwCkKakqHn"),
        ("il2cpp_method_get_name", "jgmSLpUuObu"),
        ("il2cpp_method_get_from_reflection", "bY_ngrNPSBp"),
        ("il2cpp_method_get_object", "uJokkJUjpKT"),
        ("il2cpp_method_is_generic", "RaDdigmblJd"),
        ("il2cpp_method_is_inflated", "MHOEcxWMXnX"),
        ("il2cpp_method_is_instance", "FYYVhKttIeM"),
        ("il2cpp_method_get_param_count", "SSrrPJtgRsy"),
        ("il2cpp_method_get_param", "OiCJwDuUwiM"),
        ("il2cpp_method_get_class", "gOZrNrFqRag"),
        ("il2cpp_method_has_attribute", "ZXROjjfaFd_"),
        ("il2cpp_method_get_flags", "niJNnKvNPvP"),
        ("il2cpp_method_get_token", "YMPcFDDspTK"),
        ("il2cpp_method_get_param_name", "TH_aVezXhJW"),
        ("il2cpp_property_get_flags", "MIEDlUbeuMx"),
        ("il2cpp_property_get_get_method", "CStyEE_NTSO"),
        ("il2cpp_property_get_set_method", "ErevOpxaNmP"),
        ("il2cpp_property_get_name", "ZQdUTOLZwVf"),
        ("il2cpp_property_get_parent", "sbOVZuGEH_y"),
        ("il2cpp_object_get_class", "qbFQR_fYihi"),
        ("il2cpp_object_get_size", "dQqlXFwQrJp"),
        ("il2cpp_object_get_virtual_method", "uqHFVbHaEcE"),
        ("il2cpp_object_new", "WCEoPQXKscc"),
        ("il2cpp_object_unbox", "syjaQBHbEba"),
        ("il2cpp_value_box", "NrgBtNRZraW"),
        ("il2cpp_monitor_enter", "awVxxaDkin_"),
        ("il2cpp_monitor_try_enter", "BcAaeBubdxr"),
        ("il2cpp_monitor_exit", "CKZFssaXtSR"),
        ("il2cpp_monitor_pulse", "BuJvkFvGnJJ"),
        ("il2cpp_monitor_pulse_all", "XSZeuqqCyAD"),
        ("il2cpp_monitor_wait", "nNNrsaoljaS"),
        ("il2cpp_monitor_try_wait", "mDSBbarFRGX"),
        ("il2cpp_runtime_invoke", "KsaFALsaHZl"),
        ("il2cpp_runtime_invoke_convert_args", "CcKieJOuNhD"),
        ("il2cpp_runtime_class_init", "HpawpbBmsnf"),
        ("il2cpp_runtime_object_init", "JEyEEDZogZe"),
        ("il2cpp_runtime_object_init_exception", "kFJQOElRJQz"),
        ("il2cpp_runtime_unhandled_exception_policy_set", "yuiRVqneHRq"),
        ("il2cpp_string_length", "DDuIaqSaJPb"),
        ("il2cpp_string_chars", "CAqjfDvGfOU"),
        ("il2cpp_string_new", "moZkrEOxnod"),
        ("il2cpp_string_new_len", "HiNmwaRQnUU"),
        ("il2cpp_string_new_utf16", "FQBIXIelhkZ"),
        ("il2cpp_string_new_wrapper", "sodVkROQWPR"),
        ("il2cpp_string_intern", "browFOTyQoT"),
        ("il2cpp_string_is_interned", "TmLQdbMHyHl"),
        ("il2cpp_thread_current", "XHlseHzpXli"),
        ("il2cpp_thread_attach", "yXKCkTHabfE"),
        ("il2cpp_thread_detach", "mUkuUnAcYiz"),
        ("il2cpp_thread_get_all_attached_threads", "rpORpEUDUUG"),
        ("il2cpp_is_vm_thread", "YTwnbYaBvtF"),
        ("il2cpp_current_thread_walk_frame_stack", "_kIiiFONOWj"),
        ("il2cpp_thread_walk_frame_stack", "txCdvPkSQ_U"),
        ("il2cpp_current_thread_get_top_frame", "aBVnkQmVagn"),
        ("il2cpp_thread_get_top_frame", "QfgAeisWpKk"),
        ("il2cpp_current_thread_get_frame_at", "ljruylFjhzQ"),
        ("il2cpp_thread_get_frame_at", "vfdtQi_BLnN"),
        ("il2cpp_current_thread_get_stack_depth", "_jfwrZMaxrS"),
        ("il2cpp_thread_get_stack_depth", "zxvFVDsgBzv"),
        ("il2cpp_override_stack_backtrace", "AgtoKcmHcDU"),
        ("il2cpp_type_get_object", "tRAcfCA_cJ_"),
        ("il2cpp_type_get_type", "YqifqTyuPPh"),
        ("il2cpp_type_get_class_or_element_class", "T__hQLBTfcK"),
        ("il2cpp_type_get_name", "hLEJNjZDdWu"),
        ("il2cpp_type_is_byref", "CLNqWpxdFVp"),
        ("il2cpp_type_get_attrs", "Uz_cHOJRUgo"),
        ("il2cpp_type_equals", "AridOgtMmI_"),
        ("il2cpp_type_get_assembly_qualified_name", "rrU_vIEwXbL"),
        ("il2cpp_type_get_reflection_name", "snWGrBGxadY"),
        ("il2cpp_type_is_static", "ffYPiNKgTWN"),
        ("il2cpp_type_is_pointer_type", "BgeV_bMfWIG"),
        ("il2cpp_image_get_assembly", "BNuYOmYhPYR"),
        ("il2cpp_image_get_name", "ikzAkyTEACE"),
        ("il2cpp_image_get_filename", "oZQRiHguhsf"),
        ("il2cpp_image_get_entry_point", "btgtJbGbhiv"),
        ("il2cpp_image_get_class_count", "CQzpQfpTRri"),
        ("il2cpp_image_get_class", "zUdXVkYrdqv"),
        ("il2cpp_capture_memory_snapshot", "mplYajYvgG_"),
        ("il2cpp_free_captured_memory_snapshot", "EFaaD_TxFmT"),
        ("il2cpp_set_find_plugin_callback", "mpxpzMXGXjG"),
        ("il2cpp_register_log_callback", "oHdI_cT_Dzm"),
        ("il2cpp_debugger_set_agent_options", "yTOgoQPzSCr"),
        ("il2cpp_is_debugger_attached", "hJkADbjlltQ"),
        ("il2cpp_register_debugger_agent_transport", "hKyInMXWsOU"),
        ("il2cpp_debug_get_method_info", "FqpgSyKjrdo"),
        ("il2cpp_unity_install_unitytls_interface", "JigYUjFcHix"),
        ("il2cpp_custom_attrs_from_class", "wDJQiJNSxdU"),
        ("il2cpp_custom_attrs_from_method", "hdgWuNBjZHE"),
        ("il2cpp_custom_attrs_from_field", "TSNtIHFohaO"),
        ("il2cpp_custom_attrs_get_attr", "jtFcNDldAcC"),
        ("il2cpp_custom_attrs_has_attr", "iFJnoOxafey"),
        ("il2cpp_custom_attrs_construct", "KPoSbzPCuBP"),
        ("il2cpp_custom_attrs_free", "YMpwqonKaMS"),
        ("il2cpp_class_set_userdata", "IN_yUMndXZh"),
        ("il2cpp_class_get_userdata_offset", "iDJFVOADMyw"),
        ("il2cpp_set_default_thread_affinity", "ygXP_vcjIjp"),
        ("il2cpp_unity_set_android_network_up_state_func", "vq_ROHDlwlL"),
    ]
}


/// The position in the export table of the entry named `k`, found by a
/// decision tree over the characters of the names.  For a name that the table
/// does not hold the answer means nothing.
spec fn name_index(k: Seq<char>) -> int {
    if k.len() > 12 && k[12] == '_' {
        if k.len() > 15 && k[15] == 't' {
            if k.len() > 7 && k[7] == 'c' {
                if k.len() > 20 && k[20] == 'e' {
                    if k.len() > 18 && k[18] == 'a' {
                        if k.len() > 17 && k[17] == 'p' {
                            51
                        } else {
                            if k.len() > 21 && k[21] == 's' {
                                50
                            } else {
                                48
                            }
                        }
                    } else {
                        if k.len() > 17 && k[17] == 't' {
                            if k.len() > 21 && k[21] == '_' {
                                64
                            } else {
                                63
                            }
                        } else {
                            if k.len() > 17 && k[17] == 'a' {
                                69
                            } else {
                                42
                            }
                        }
                    }
                } else {
                    if k.len() > 19 && k[19] == 'e' {
                        if k.len() > 23 && k[23] == 't' {
                            if k.len() > 13 && k[13] == 's' {
                                230
                            } else {
                                if k.len() > 17 && k[17] == 'e' {
                                    38
                                } else {
                                    231
                                }
                            }
                        } else {
                            if k.len() > 17 && k[17] == 'e' {
                                39
                            } else {
                                if k.len() > 22 && k[22] == 's' {
                                    40
                                } else {
                                    45
                                }
                            }
                        }
                    } else {
                        if k.len() > 19 && k[19] == 't' {
                            if k.len() > 17 && k[17] == 'm' {
                                if k.len() > 23 && k[23] == 's' {
                                    46
                                } else {
                                    47
                                }
                            } else {
                                if k.len() > 17 && k[17] == 'd' {
                                    71
                                } else {
                                    if k.len() > 23 && k[23] == '_' {
                                        73
                                    } else {
                                        74
                                    }
                                }
                            }
                        } else {
                            if k.len() > 21 && k[21] == 'e' {
                                if k.len() > 17 && k[17] == 'p' {
                                    if k.len() > 24 && k[24] == 'y' {
                                        44
                                    } else {
                                        43
                                    }
                                } else {
                                    if k.len() > 17 && k[17] == 'n' {
                                        41
                                    } else {
                                        68
                                    }
                                }
                            } else {
                                if k.len() > 19 && k[19] == 'a' {
                                    if k.len() > 17 && k[17] == 's' {
                                        72
                                    } else {
                                        58
                                    }
                                } else {
                                    if k.len() > 17 && k[17] == 'r' {
                                        70
                                    } else {
                                        52
                                    }
                                }
                            }
                        }
                    }
                }
            } else {
                if k.len() > 7 && k[7] == 'f' {
                    if k.len() > 17 && k[17] == 'v' {
                        if k.len() > 13 && k[13] == 's' {
                            if k.len() > 22 && k[22] == '_' {
                                98
                            } else {
                                95
                            }
                        } else {
                            if k.len() > 22 && k[22] == '_' {
                                93
                            } else {
                                92
                            }
                        }
                    } else {
                        if k.len() > 18 && k[18] == 'a' {
                            if k.len() > 17 && k[17] == 'p' {
                                89
                            } else {
                                88
                            }
                        } else {
                            if k.len() > 17 && k[17] == 't' {
                                91
                            } else {
                                if k.len() > 17 && k[17] == 'f' {
                                    87
                                } else {
                                    90
                                }
                            }
                        }
                    }
                } else {
                    if k.len() > 7 && k[7] == 'i' {
                        if k.len() > 20 && k[20] == 'e' {
                            if k.len() > 17 && k[17] == 'a' {
                                208
                            } else {
                                if k.len() > 17 && k[17] == 'f' {
                                    210
                                } else {
                                    209
                                }
                            }
                        } else {
                            if k.len() > 17 && k[17] == 'e' {
                                211
                            } else {
                                if k.len() > 22 && k[22] == '_' {
                                    212
                                } else {
                                    213
                                }
                            }
                        }
                    } else {
                        if k.len() > 10 && k[10] == 't' {
                            if k.len() > 7 && k[7] == 's' {
                                76
                            } else {
                                233
                            }
                        } else {
                            if k.len() > 7 && k[7] == 'a' {
                                20
                            } else {
                                221
                            }
                        }
                    }
                }
            }
        } else {
            if k.len() > 7 && k[7] == 'c' {
                if k.len() > 13 && k[13] == 'i' {
                    if k.len() > 17 && k[17] == 'n' {
                        if k.len() > 16 && k[16] == 'e' {
                            67
                        } else {
                            if k.len() > 18 && k[18] == 'f' {
                                31
                            } else {
                                if k.len() > 18 && k[18] == 't' {
                                    60
                                } else {
                                    29
                                }
                            }
                        }
                    } else {
                        if k.len() > 21 && k[21] == 'a' {
                            if k.len() > 16 && k[16] == 's' {
                                33
                            } else {
                                if k.len() > 16 && k[16] == 'a' {
                                    59
                                } else {
                                    57
                                }
                            }
                        } else {
                            if k.len() > 17 && k[17] == 'a' {
                                if k.len() > 14 && k[14] == 's' {
                                    55
                                } else {
                                    53
                                }
                            } else {
                                if k.len() > 16 && k[16] == 'g' {
                                    30
                                } else {
                                    32
                                }
                            }
                        }
                    }
                } else {
                    if k.len() > 13 && k[13] == 'f' {
                        if k.len() > 19 && k[19] == 'y' {
                            if k.len() > 18 && k[18] == 's' {
                                37
                            } else {
                                62
                            }
                        } else {
                            if k.len() > 14 && k[14] == 'r' {
                                if k.len() > 18 && k[18] == 'n' {
                                    36
                                } else {
                                    35
                                }
                            } else {
                                27
                            }
                        }
                    } else {
                        if k.len() > 13 && k[13] == 'h' {
                            if k.len() > 17 && k[17] == 'r' {
                                66
                            } else {
                                if k.len() > 17 && k[17] == 'a' {
                                    65
                                } else {
                                    34
                                }
                            }
                        } else {
                            if k.len() > 18 && k[18] == '_' {
                                if k.len() > 13 && k[13] == 'v' {
                                    56
                                } else {
                                    61
                                }
                            } else {
                                if k.len() > 13 && k[13] == 'e' {
                                    28
                                } else {
                                    54
                                }
                            }
                        }
                    }
                }
            } else {
                if k.len() > 11 && k[11] == 'y' {
                    if k.len() > 7 && k[7] == 'a' {
                        if k.len() > 13 && k[13] == 'n' {
                            if k.len() > 16 && k[16] == '_' {
                                if k.len() > 17 && k[17] == 's' {
                                    22
                                } else {
                                    23
                                }
                            } else {
                                21
                            }
                        } else {
                            if k.len() > 14 && k[14] == 'l' {
                                if k.len() > 13 && k[13] == 'c' {
                                    18
                                } else {
                                    25
                                }
                            } else {
                                if k.len() > 13 && k[13] == 'o' {
                                    127
                                } else {
                                    19
                                }
                            }
                        }
                    } else {
                        if k.len() > 24 && k[24] == 'l' {
                            if k.len() > 22 && k[22] == 'c' {
                                if k.len() > 39 && k[39] == 's' {
                                    133
                                } else {
                                    132
                                }
                            } else {
                                131
                            }
                        } else {
                            if k.len() > 13 && k[13] == 'i' {
                                222
                            } else {
                                if k.len() > 23 && k[23] == 'r' {
                                    135
                                } else {
                                    134
                                }
                            }
                        }
                    }
                } else {
                    if k.len() > 7 && k[7] == 'f' {
                        if k.len() > 13 && k[13] == 's' {
                            if k.len() > 20 && k[20] == 's' {
                                97
                            } else {
                                96
                            }
                        } else {
                            if k.len() > 13 && k[13] == 'h' {
                                94
                            } else {
                                99
                            }
                        }
                    } else {
                        if k.len() > 9 && k[9] == '_' {
                            if k.len() > 7 && k[7] == 'g' {
                                if k.len() > 13 && k[13] == 'd' {
                                    105
                                } else {
                                    109
                                }
                            } else {
                                187
                            }
                        } else {
                            if k.len() > 7 && k[7] == 's' {
                                if k.len() > 10 && k[10] == 'r' {
                                    118
                                } else {
                                    75
                                }
                            } else {
                                if k.len() > 7 && k[7] == 'v' {
                                    161
                                } else {
                                    80
                                }
                            }
                        }
                    }
                }
            }
        }
    } else {
        if k.len() > 13 && k[13] == '_' {
            if k.len() > 16 && k[16] == 't' {
                if k.len() > 12 && k[12] == 'd' {
                    if k.len() > 7 && k[7] == 'm' {
                        if k.len() > 19 && k[19] == 'a' {
                            if k.len() > 23 && k[23] == '_' {
                                if k.len() > 24 && k[24] == 'c' {
                                    144
                                } else {
                                    150
                                }
                            } else {
                                if k.len() > 18 && k[18] == 'p' {
                                    145
                                } else {
                                    138
                                }
                            }
                        } else {
                            if k.len() > 18 && k[18] == 'f' {
                                if k.len() > 19 && k[19] == 'r' {
                                    139
                                } else {
                                    148
                                }
                            } else {
                                if k.len() > 19 && k[19] == 'e' {
                                    if k.len() > 18 && k[18] == 'r' {
                                        136
                                    } else {
                                        137
                                    }
                                } else {
                                    if k.len() > 18 && k[18] == 'c' {
                                        146
                                    } else {
                                        if k.len() > 18 && k[18] == 't' {
                                            149
                                        } else {
                                            140
                                        }
                                    }
                                }
                            }
                        }
                    } else {
                        if k.len() > 14 && k[14] == 'g' {
                            if k.len() > 20 && k[20] == 'a' {
                                if k.len() > 18 && k[18] == 's' {
                                    195
                                } else {
                                    193
                                }
                            } else {
                                if k.len() > 18 && k[18] == 'a' {
                                    186
                                } else {
                                    191
                                }
                            }
                        } else {
                            if k.len() > 14 && k[14] == 'a' {
                                184
                            } else {
                                185
                            }
                        }
                    }
                } else {
                    if k.len() > 7 && k[7] == 'c' {
                        if k.len() > 20 && k[20] == 'f' {
                            if k.len() > 22 && k[22] == 'e' {
                                229
                            } else {
                                if k.len() > 25 && k[25] == 'c' {
                                    223
                                } else {
                                    if k.len() > 25 && k[25] == 'f' {
                                        225
                                    } else {
                                        224
                                    }
                                }
                            }
                        } else {
                            if k.len() > 20 && k[20] == 'c' {
                                228
                            } else {
                                if k.len() > 20 && k[20] == 'h' {
                                    227
                                } else {
                                    226
                                }
                            }
                        }
                    } else {
                        if k.len() > 17 && k[17] == '_' {
                            if k.len() > 19 && k[19] == 'i' {
                                if k.len() > 18 && k[18] == 'v' {
                                    158
                                } else {
                                    157
                                }
                            } else {
                                if k.len() > 7 && k[7] == 'd' {
                                    79
                                } else {
                                    156
                                }
                            }
                        } else {
                            if k.len() > 7 && k[7] == 'g' {
                                if k.len() > 23 && k[23] == 'a' {
                                    114
                                } else {
                                    115
                                }
                            } else {
                                if k.len() > 7 && k[7] == 's' {
                                    181
                                } else {
                                    77
                                }
                            }
                        }
                    }
                }
            } else {
                if k.len() > 12 && k[12] == 't' {
                    if k.len() > 7 && k[7] == 'o' {
                        if k.len() > 8 && k[8] == 'f' {
                            if k.len() > 23 && k[23] == 'b' {
                                129
                            } else {
                                128
                            }
                        } else {
                            if k.len() > 14 && k[14] == 'h' {
                                126
                            } else {
                                if k.len() > 14 && k[14] == 'u' {
                                    160
                                } else {
                                    159
                                }
                            }
                        }
                    } else {
                        if k.len() > 10 && k[10] == 'g' {
                            if k.len() > 14 && k[14] == 'h' {
                                111
                            } else {
                                if k.len() > 14 && k[14] == 'm' {
                                    107
                                } else {
                                    110
                                }
                            }
                        } else {
                            if k.len() > 7 && k[7] == 'f' {
                                if k.len() > 14 && k[14] == 'e' {
                                    83
                                } else {
                                    84
                                }
                            } else {
                                if k.len() > 15 && k[15] == 'a' {
                                    108
                                } else {
                                    106
                                }
                            }
                        }
                    }
                } else {
                    if k.len() > 9 && k[9] == 'r' {
                        if k.len() > 14 && k[14] == 'n' {
                            if k.len() > 17 && k[17] == '_' {
                                if k.len() > 18 && k[18] == 'u' {
                                    179
                                } else {
                                    if k.len() > 18 && k[18] == 'w' {
                                        180
                                    } else {
                                        178
                                    }
                                }
                            } else {
                                177
                            }
                        } else {
                            if k.len() > 7 && k[7] == 's' {
                                if k.len() > 14 && k[14] == 'c' {
                                    176
                                } else {
                                    if k.len() > 14 && k[14] == 'i' {
                                        182
                                    } else {
                                        175
                                    }
                                }
                            } else {
                                if k.len() > 14 && k[14] == 'c' {
                                    183
                                } else {
                                    189
                                }
                            }
                        }
                    } else {
                        if k.len() > 9 && k[9] == 't' {
                            if k.len() > 14 && k[14] == 'i' {
                                if k.len() > 17 && k[17] == 'g' {
                                    141
                                } else {
                                    if k.len() > 19 && k[19] == 's' {
                                        143
                                    } else {
                                        142
                                    }
                                }
                            } else {
                                if k.len() > 7 && k[7] == 'm' {
                                    147
                                } else {
                                    86
                                }
                            }
                        } else {
                            if k.len() > 7 && k[7] == 'm' {
                                if k.len() > 19 && k[19] == 's' {
                                    11
                                } else {
                                    12
                                }
                            } else {
                                if k.len() > 7 && k[7] == 'g' {
                                    113
                                } else {
                                    78
                                }
                            }
                        }
                    }
                }
            }
        } else {
            if k.len() > 15 && k[15] == '_' {
                if k.len() > 17 && k[17] == 'e' {
                    if k.len() > 14 && k[14] == 'y' {
                        if k.len() > 21 && k[21] == 'e' {
                            if k.len() > 20 && k[20] == 's' {
                                153
                            } else {
                                152
                            }
                        } else {
                            if k.len() > 21 && k[21] == 'a' {
                                if k.len() > 20 && k[20] == 'p' {
                                    155
                                } else {
                                    154
                                }
                            } else {
                                if k.len() > 7 && k[7] == 'a' {
                                    26
                                } else {
                                    151
                                }
                            }
                        }
                    } else {
                        if k.len() > 7 && k[7] == 'g' {
                            if k.len() > 16 && k[16] == 'g' {
                                123
                            } else {
                                if k.len() > 19 && k[19] == '_' {
                                    122
                                } else {
                                    121
                                }
                            }
                        } else {
                            if k.len() > 7 && k[7] == 'r' {
                                220
                            } else {
                                if k.len() > 7 && k[7] == 'd' {
                                    218
                                } else {
                                    205
                                }
                            }
                        }
                    }
                } else {
                    if k.len() > 13 && k[13] == 'e' {
                        if k.len() > 19 && k[19] == 'e' {
                            if k.len() > 16 && k[16] == 'n' {
                                if k.len() > 20 && k[20] == '_' {
                                    49
                                } else {
                                    200
                                }
                            } else {
                                if k.len() > 16 && k[16] == 't' {
                                    198
                                } else {
                                    if k.len() > 16 && k[16] == 'a' {
                                        204
                                    } else {
                                        197
                                    }
                                }
                            }
                        } else {
                            if k.len() > 7 && k[7] == 'r' {
                                217
                            } else {
                                if k.len() > 16 && k[16] == 'c' {
                                    199
                                } else {
                                    202
                                }
                            }
                        }
                    } else {
                        if k.len() > 7 && k[7] == 'g' {
                            if k.len() > 9 && k[9] == 'h' {
                                if k.len() > 17 && k[17] == 'r' {
                                    124
                                } else {
                                    125
                                }
                            } else {
                                if k.len() > 10 && k[10] == 's' {
                                    102
                                } else {
                                    119
                                }
                            }
                        } else {
                            if k.len() > 12 && k[12] == 'i' {
                                if k.len() > 7 && k[7] == 's' {
                                    216
                                } else {
                                    196
                                }
                            } else {
                                if k.len() > 11 && k[11] == 'd' {
                                    4
                                } else {
                                    5
                                }
                            }
                        }
                    }
                }
            } else {
                if k.len() > 14 && k[14] == '_' {
                    if k.len() > 9 && k[9] == 'n' {
                        if k.len() > 7 && k[7] == 'r' {
                            if k.len() > 16 && k[16] == 'n' {
                                if k.len() > 15 && k[15] == 'u' {
                                    174
                                } else {
                                    if k.len() > 21 && k[21] == '_' {
                                        170
                                    } else {
                                        169
                                    }
                                }
                            } else {
                                if k.len() > 15 && k[15] == 'c' {
                                    171
                                } else {
                                    if k.len() > 26 && k[26] == '_' {
                                        173
                                    } else {
                                        172
                                    }
                                }
                            }
                        } else {
                            if k.len() > 19 && k[19] == 'e' {
                                if k.len() > 15 && k[15] == 'p' {
                                    if k.len() > 20 && k[20] == '_' {
                                        166
                                    } else {
                                        165
                                    }
                                } else {
                                    163
                                }
                            } else {
                                if k.len() > 15 && k[15] == 'e' {
                                    if k.len() > 16 && k[16] == 'n' {
                                        162
                                    } else {
                                        164
                                    }
                                } else {
                                    if k.len() > 15 && k[15] == 't' {
                                        168
                                    } else {
                                        167
                                    }
                                }
                            }
                        }
                    } else {
                        if k.len() > 18 && k[18] == 'e' {
                            if k.len() > 22 && k[22] == 'g' {
                                if k.len() > 26 && k[26] == 's' {
                                    194
                                } else {
                                    if k.len() > 26 && k[26] == 'f' {
                                        192
                                    } else {
                                        190
                                    }
                                }
                            } else {
                                if k.len() > 7 && k[7] == 'c' {
                                    188
                                } else {
                                    if k.len() > 7 && k[7] == 'g' {
                                        120
                                    } else {
                                        201
                                    }
                                }
                            }
                        } else {
                            if k.len() > 9 && k[9] == 'p' {
                                if k.len() > 7 && k[7] == 'c' {
                                    214
                                } else {
                                    if k.len() > 15 && k[15] == 's' {
                                        206
                                    } else {
                                        207
                                    }
                                }
                            } else {
                                if k.len() > 7 && k[7] == 's' {
                                    117
                                } else {
                                    if k.len() > 7 && k[7] == 'r' {
                                        15
                                    } else {
                                        24
                                    }
                                }
                            }
                        }
                    }
                } else {
                    if k.len() > 10 && k[10] == '_' {
                        if k.len() > 11 && k[11] == 'c' {
                            if k.len() > 13 && k[13] == 'n' {
                                if k.len() > 17 && k[17] == '_' {
                                    if k.len() > 18 && k[18] == 'd' {
                                        3
                                    } else {
                                        8
                                    }
                                } else {
                                    9
                                }
                            } else {
                                if k.len() > 7 && k[7] == 's' {
                                    if k.len() > 32 && k[32] == '_' {
                                        7
                                    } else {
                                        6
                                    }
                                } else {
                                    13
                                }
                            }
                        } else {
                            if k.len() > 7 && k[7] == 's' {
                                if k.len() > 11 && k[11] == 'm' {
                                    10
                                } else {
                                    232
                                }
                            } else {
                                if k.len() > 7 && k[7] == 'a' {
                                    14
                                } else {
                                    82
                                }
                            }
                        }
                    } else {
                        if k.len() > 9 && k[9] == '_' {
                            if k.len() > 11 && k[11] == 'o' {
                                if k.len() > 10 && k[10] == 'c' {
                                    if k.len() > 17 && k[17] == '_' {
                                        101
                                    } else {
                                        100
                                    }
                                } else {
                                    116
                                }
                            } else {
                                if k.len() > 10 && k[10] == 'd' {
                                    if k.len() > 7 && k[7] == 'g' {
                                        103
                                    } else {
                                        219
                                    }
                                } else {
                                    if k.len() > 10 && k[10] == 'e' {
                                        104
                                    } else {
                                        112
                                    }
                                }
                            }
                        } else {
                            if k.len() > 10 && k[10] == 'e' {
                                if k.len() > 7 && k[7] == 'f' {
                                    if k.len() > 11 && k[11] == '_' {
                                        215
                                    } else {
                                        17
                                    }
                                } else {
                                    if k.len() > 7 && k[7] == 'e' {
                                        81
                                    } else {
                                        203
                                    }
                                }
                            } else {
                                if k.len() > 8 && k[8] == 'n' {
                                    if k.len() > 7 && k[7] == 'u' {
                                        85
                                    } else {
                                        if k.len() > 11 && k[11] == '_' {
                                            1
                                        } else {
                                            0
                                        }
                                    }
                                } else {
                                    if k.len() > 7 && k[7] == 's' {
                                        2
                                    } else {
                                        if k.len() > 12 && k[12] == 'a' {
                                            130
                                        } else {
                                            16
                                        }
                                    }
                                }
                            }
                        }
                    }
                }
            }
        }
    }
}

/// What is checked of entry `i`: `name_index` finds it at its own position,
/// its name has `'2'` as third character (every name starts with `il2cpp_`),
/// and its obfuscated name does not and holds no NUL character.
spec fn entry_checked(i: int) -> bool {
    &&& name_index(export_table()[i].0) == i
    &&& export_table()[i].0.len() > 2
    &&& export_table()[i].0[2] == '2'
    &&& export_table()[i].1.len() > 2
    &&& export_table()[i].1[2] != '2'
    &&& !export_table()[i].1.contains('\0')
}

/// An eleven-character string whose characters are each not NUL holds no
/// NUL character.
proof fn lemma_no_nul_in_eleven(v: Seq<char>)
    requires
        v.len() == 11,
        v[0] != '\0' && v[1] != '\0' && v[2] != '\0' && v[3] != '\0',
        v[4] != '\0' && v[5] != '\0' && v[6] != '\0' && v[7] != '\0',
        v[8] != '\0' && v[9] != '\0' && v[10] != '\0',
    ensures
        !v.contains('\0'),
{
    assert forall|j: int| 0 <= j < 11 implies v[j] != '\0' by {
        if j < 4 {
            assert(j == 0 || j == 1 || j == 2 || j == 3);
        } else if j < 8 {
            assert(j == 4 || j == 5 || j == 6 || j == 7);
        } else {
            assert(j == 8 || j == 9 || j == 10);
        }
    }
}

/// The entries before position `n` are checked.
#[verifier::opaque]
spec fn checked_below(n: int) -> bool {
    forall|i: int| 0 <= i < n ==> #[trigger] entry_checked(i)
}

proof fn lemma_checked_0_20()
    ensures
        checked_below(20),
{
    assert(checked_below(0)) by {
        reveal(checked_below);
    }
    assert(checked_below(1)) by {
        reveal(checked_below);
        assert(entry_checked(0)) by {
            reveal(export_table);
            reveal_strlit("il2cpp_init");
            reveal_strlit("GdnPlVZEdxf");
            lemma_no_nul_in_eleven(export_table()[0].1);
        }
    }
    assert(checked_below(2)) by {
        reveal(checked_below);
        assert(entry_checked(1)) by {
            reveal(export_table);
            reveal_strlit("il2cpp_init_utf16");
            reveal_strlit("xeESwBbuab_");
            lemma_no_nul_in_eleven(export_table()[1].1);
        }
    }
    assert(checked_below(3)) by {
        reveal(checked_below);
        assert(entry_checked(2)) by {
            reveal(export_table);
            reveal_strlit("il2cpp_shutdown");
            reveal_strlit("nKyghkcwxJe");
            lemma_no_nul_in_eleven(export_table()[2].1);
        }
    }
    assert(checked_below(4)) by {
        reveal(checked_below);
        assert(entry_checked(3)) by {
            reveal(export_table);
            reveal_strlit("il2cpp_set_config_dir");
            reveal_strlit("XiKOzOdJsYE");
            lemma_no_nul_in_eleven(export_table()[3].1);
        }
    }
    assert(checked_below(5)) by {
        reveal(checked_below);
        assert(entry_checked(4)) by {
            reveal(export_table);
            reveal_strlit("il2cpp_set_data_dir");
            reveal_strlit("AbJEjDq_zgF");
            lemma_no_nul_in_eleven(export_table()[4].1);
        }
    }
    assert(checked_below(6)) by {
        reveal(checked_below);
        assert(entry_checked(5)) by {
            reveal(export_table);
            reveal_strlit("il2cpp_set_temp_dir");
            reveal_strlit("JerpDnxOVno");
            lemma_no_nul_in_eleven(export_table()[5].1);
        }
    }
    assert(checked_below(7)) by {
        reveal(checked_below);
        assert(entry_checked(6)) by {
            reveal(export_table);
            reveal_strlit("il2cpp_set_commandline_arguments");
            reveal_strlit("NkyFkhKjXDP");
            lemma_no_nul_in_eleven(export_table()[6].1);
        }
    }
    assert(checked_below(8)) by {
        reveal(checked_below);
        assert(entry_checked(7)) by {
            reveal(export_table);
            reveal_strlit("il2cpp_set_commandline_arguments_utf16");
            reveal_strlit("UfNXctJaZQO");
            lemma_no_nul_in_eleven(export_table()[7].1);
        }
    }
    assert(checked_below(9)) by {
        reveal(checked_below);
        assert(entry_checked(8)) by {
            reveal(export_table);
            reveal_strlit("il2cpp_set_config_utf16");
            reveal_strlit("MJdRIVcUmWY");
            lemma_no_nul_in_eleven(export_table()[8].1);
        }
    }
    assert(checked_below(10)) by {
        reveal(checked_below);
        assert(entry_checked(9)) by {
            reveal(export_table);
            reveal_strlit("il2cpp_set_config");
            reveal_strlit("igjWeppGXcn");
            lemma_no_nul_in_eleven(export_table()[9].1);
        }
    }
    assert(checked_below(11)) by {
        reveal(checked_below);
        assert(entry_checked(10)) by {
            reveal(export_table);
            reveal_strlit("il2cpp_set_memory_callbacks");
            reveal_strlit("NPuDEZOXejP");
            lemma_no_nul_in_eleven(export_table()[10].1);
        }
    }
    assert(checked_below(12)) by {
        reveal(checked_below);
        assert(entry_checked(11)) by {
            reveal(export_table);
            reveal_strlit("il2cpp_memory_pool_set_region_size");
            reveal_strlit("EAFNJ_FIJYK");
            lemma_no_nul_in_eleven(export_table()[11].1);
        }
    }
    assert(checked_below(13)) by {
        reveal(checked_below);
        assert(entry_checked(12)) by {
            reveal(export_table);
            reveal_strlit("il2cpp_memory_pool_get_region_size");
            reveal_strlit("gdwVBiglIWC");
            lemma_no_nul_in_eleven(export_table()[12].1);
        }
    }
    assert(checked_below(14)) by {
        reveal(checked_below);
        assert(entry_checked(13)) by {
            reveal(export_table);
            reveal_strlit("il2cpp_get_corlib");
            reveal_strlit("NGbgctWOdID");
            lemma_no_nul_in_eleven(export_table()[13].1);
        }
    }
    assert(checked_below(15)) by {
        reveal(checked_below);
        assert(entry_checked(14)) by {
            reveal(export_table);
            reveal_strlit("il2cpp_add_internal_call");
            reveal_strlit("kdoNiyv_Qhd");
            lemma_no_nul_in_eleven(export_table()[14].1);
        }
    }
    assert(checked_below(16)) by {
        reveal(checked_below);
        assert(entry_checked(15)) by {
            reveal(export_table);
            reveal_strlit("il2cpp_resolve_icall");
            reveal_strlit("UWZdnspJd_I");
            lemma_no_nul_in_eleven(export_table()[15].1);
        }
    }
    assert(checked_below(17)) by {
        reveal(checked_below);
        assert(entry_checked(16)) by {
            reveal(export_table);
            reveal_strlit("il2cpp_alloc");
            reveal_strlit("KaCKWSaBPCP");
            lemma_no_nul_in_eleven(export_table()[16].1);
        }
    }
    assert(checked_below(18)) by {
        reveal(checked_below);
        assert(entry_checked(17)) by {
            reveal(export_table);
            reveal_strlit("il2cpp_free");
            reveal_strlit("PRfrmVSTTrU");
            lemma_no_nul_in_eleven(export_table()[17].1);
        }
    }
    assert(checked_below(19)) by {
        reveal(checked_below);
        assert(entry_checked(18)) by {
            reveal(export_table);
            reveal_strlit("il2cpp_array_class_get");
            reveal_strlit("LAiuXZUDdNh");
            lemma_no_nul_in_eleven(export_table()[18].1);
        }
    }
    assert(checked_below(20)) by {
        reveal(checked_below);
        assert(entry_checked(19)) by {
            reveal(export_table);
            reveal_strlit("il2cpp_array_length");
            reveal_strlit("QRIjzueyGZT");
            lemma_no_nul_in_eleven(export_table()[19].1);
        }
    }
}

proof fn lemma_checked_20_40()
    requires
        checked_below(20),
    ensures
        checked_below(40),
{
    assert(checked_below(21)) by {
        reveal(checked_below);
        assert(entry_checked(20)) by {
            reveal(export_table);
            reveal_strlit("il2cpp_array_get_byte_length");
            reveal_strlit("jzmYhGGuWvJ");
            lemma_no_nul_in_eleven(export_table()[20].1);
        }
    }
    assert(checked_below(22)) by {
        reveal(checked_below);
        assert(entry_checked(21)) by {
            reveal(export_table);
            reveal_strlit("il2cpp_array_new");
            reveal_strlit("Nlz_loEWfav");
            lemma_no_nul_in_eleven(export_table()[21].1);
        }
    }
    assert(checked_below(23)) by {
        reveal(checked_below);
        assert(entry_checked(22)) by {
            reveal(export_table);
            reveal_strlit("il2cpp_array_new_specific");
            reveal_strlit("KBFdoRXhdON");
            lemma_no_nul_in_eleven(export_table()[22].1);
        }
    }
    assert(checked_below(24)) by {
        reveal(checked_below);
        assert(entry_checked(23)) by {
            reveal(export_table);
            reveal_strlit("il2cpp_array_new_full");
            reveal_strlit("cJrJgWxPWSl");
            lemma_no_nul_in_eleven(export_table()[23].1);
        }
    }
    assert(checked_below(25)) by {
        reveal(checked_below);
        assert(entry_checked(24)) by {
            reveal(export_table);
            reveal_strlit("il2cpp_bounded_array_class_get");
            reveal_strlit("fyViQqbTTPe");
            lemma_no_nul_in_eleven(export_table()[24].1);
        }
    }
    assert(checked_below(26)) by {
        reveal(checked_below);
        assert(entry_checked(25)) by {
            reveal(export_table);
            reveal_strlit("il2cpp_array_element_size");
            reveal_strlit("rYLHFyGgORz");
            lemma_no_nul_in_eleven(export_table()[25].1);
        }
    }
    assert(checked_below(27)) by {
        reveal(checked_below);
        assert(entry_checked(26)) by {
            reveal(export_table);
            reveal_strlit("il2cpp_assembly_get_image");
            reveal_strlit("WrPjnXSxwvx");
            lemma_no_nul_in_eleven(export_table()[26].1);
        }
    }
    assert(checked_below(28)) by {
        reveal(checked_below);
        assert(entry_checked(27)) by {
            reveal(export_table);
            reveal_strlit("il2cpp_class_for_each");
            reveal_strlit("bU_ybtImqeh");
            lemma_no_nul_in_eleven(export_table()[27].1);
        }
    }
    assert(checked_below(29)) by {
        reveal(checked_below);
        assert(entry_checked(28)) by {
            reveal(export_table);
            reveal_strlit("il2cpp_class_enum_basetype");
            reveal_strlit("GgOmkULknVl");
            lemma_no_nul_in_eleven(export_table()[28].1);
        }
    }
    assert(checked_below(30)) by {
        reveal(checked_below);
        assert(entry_checked(29)) by {
            reveal(export_table);
            reveal_strlit("il2cpp_class_is_inited");
            reveal_strlit("gnQolWebGMV");
            lemma_no_nul_in_eleven(export_table()[29].1);
        }
    }
    assert(checked_below(31)) by {
        reveal(checked_below);
        assert(entry_checked(30)) by {
            reveal(export_table);
            reveal_strlit("il2cpp_class_is_generic");
            reveal_strlit("zLPRtXMqDka");
            lemma_no_nul_in_eleven(export_table()[30].1);
        }
    }
    assert(checked_below(32)) by {
        reveal(checked_below);
        assert(entry_checked(31)) by {
            reveal(export_table);
            reveal_strlit("il2cpp_class_is_inflated");
            reveal_strlit("vkWLZpdNfvo");
            lemma_no_nul_in_eleven(export_table()[31].1);
        }
    }
    assert(checked_below(33)) by {
        reveal(checked_below);
        assert(entry_checked(32)) by {
            reveal(export_table);
            reveal_strlit("il2cpp_class_is_assignable_from");
            reveal_strlit("XkjrtGAMQyu");
            lemma_no_nul_in_eleven(export_table()[32].1);
        }
    }
    assert(checked_below(34)) by {
        reveal(checked_below);
        assert(entry_checked(33)) by {
            reveal(export_table);
            reveal_strlit("il2cpp_class_is_subclass_of");
            reveal_strlit("bXykbnZeM__");
            lemma_no_nul_in_eleven(export_table()[33].1);
        }
    }
    assert(checked_below(35)) by {
        reveal(checked_below);
        assert(entry_checked(34)) by {
            reveal(export_table);
            reveal_strlit("il2cpp_class_has_parent");
            reveal_strlit("rFwPWfVVfiU");
            lemma_no_nul_in_eleven(export_table()[34].1);
        }
    }
    assert(checked_below(36)) by {
        reveal(checked_below);
        assert(entry_checked(35)) by {
            reveal(export_table);
            reveal_strlit("il2cpp_class_from_il2cpp_type");
            reveal_strlit("OCipriHLgON");
            lemma_no_nul_in_eleven(export_table()[35].1);
        }
    }
    assert(checked_below(37)) by {
        reveal(checked_below);
        assert(entry_checked(36)) by {
            reveal(export_table);
            reveal_strlit("il2cpp_class_from_name");
            reveal_strlit("lQyvUscAGEB");
            lemma_no_nul_in_eleven(export_table()[36].1);
        }
    }
    assert(checked_below(38)) by {
        reveal(checked_below);
        assert(entry_checked(37)) by {
            reveal(export_table);
            reveal_strlit("il2cpp_class_from_system_type");
            reveal_strlit("UgeTybrtfli");
            lemma_no_nul_in_eleven(export_table()[37].1);
        }
    }
    assert(checked_below(39)) by {
        reveal(checked_below);
        assert(entry_checked(38)) by {
            reveal(export_table);
            reveal_strlit("il2cpp_class_get_element_class");
            reveal_strlit("rLtGEybL_mo");
            lemma_no_nul_in_eleven(export_table()[38].1);
        }
    }
    assert(checked_below(40)) by {
        reveal(checked_below);
        assert(entry_checked(39)) by {
            reveal(export_table);
            reveal_strlit("il2cpp_class_get_events");
            reveal_strlit("WYodECZGcFP");
            lemma_no_nul_in_eleven(export_table()[39].1);
        }
    }
}

proof fn lemma_checked_40_60()
    requires
        checked_below(40),
    ensures
        checked_below(60),
{
    assert(checked_below(41)) by {
        reveal(checked_below);
        assert(entry_checked(40)) by {
            reveal(export_table);
            reveal_strlit("il2cpp_class_get_fields");
            reveal_strlit("QZg_eWEoySR");
            lemma_no_nul_in_eleven(export_table()[40].1);
        }
    }
    assert(checked_below(42)) by {
        reveal(checked_below);
        assert(entry_checked(41)) by {
            reveal(export_table);
            reveal_strlit("il2cpp_class_get_nested_types");
            reveal_strlit("gcfwVglwRWR");
            lemma_no_nul_in_eleven(export_table()[41].1);
        }
    }
    assert(checked_below(43)) by {
        reveal(checked_below);
        assert(entry_checked(42)) by {
            reveal(export_table);
            reveal_strlit("il2cpp_class_get_interfaces");
            reveal_strlit("wfeudlBuJmW");
            lemma_no_nul_in_eleven(export_table()[42].1);
        }
    }
    assert(checked_below(44)) by {
        reveal(checked_below);
        assert(entry_checked(43)) by {
            reveal(export_table);
            reveal_strlit("il2cpp_class_get_properties");
            reveal_strlit("ONYXmIhnfVE");
            lemma_no_nul_in_eleven(export_table()[43].1);
        }
    }
    assert(checked_below(45)) by {
        reveal(checked_below);
        assert(entry_checked(44)) by {
            reveal(export_table);
            reveal_strlit("il2cpp_class_get_property_from_name");
            reveal_strlit("fHtXWY_hYew");
            lemma_no_nul_in_eleven(export_table()[44].1);
        }
    }
    assert(checked_below(46)) by {
        reveal(checked_below);
        assert(entry_checked(45)) by {
            reveal(export_table);
            reveal_strlit("il2cpp_class_get_field_from_name");
            reveal_strlit("pwnfMkbaSCR");
            lemma_no_nul_in_eleven(export_table()[45].1);
        }
    }
    assert(checked_below(47)) by {
        reveal(checked_below);
        assert(entry_checked(46)) by {
            reveal(export_table);
            reveal_strlit("il2cpp_class_get_methods");
            reveal_strlit("XnXhgwwvBVH");
            lemma_no_nul_in_eleven(export_table()[46].1);
        }
    }
    assert(checked_below(48)) by {
        reveal(checked_below);
        assert(entry_checked(47)) by {
            reveal(export_table);
            reveal_strlit("il2cpp_class_get_method_from_name");
            reveal_strlit("LmZVehSCtkU");
            lemma_no_nul_in_eleven(export_table()[47].1);
        }
    }
    assert(checked_below(49)) by {
        reveal(checked_below);
        assert(entry_checked(48)) by {
            reveal(export_table);
            reveal_strlit("il2cpp_class_get_name");
            reveal_strlit("dswOlGpdlQB");
            lemma_no_nul_in_eleven(export_table()[48].1);
        }
    }
    assert(checked_below(50)) by {
        reveal(checked_below);
        assert(entry_checked(49)) by {
            reveal(export_table);
            reveal_strlit("il2cpp_type_get_name_chunked");
            reveal_strlit("XvW_nQkLeKA");
            lemma_no_nul_in_eleven(export_table()[49].1);
        }
    }
    assert(checked_below(51)) by {
        reveal(checked_below);
        assert(entry_checked(50)) by {
            reveal(export_table);
            reveal_strlit("il2cpp_class_get_namespace");
            reveal_strlit("WBDCidKvO_s");
            lemma_no_nul_in_eleven(export_table()[50].1);
        }
    }
    assert(checked_below(52)) by {
        reveal(checked_below);
        assert(entry_checked(51)) by {
            reveal(export_table);
            reveal_strlit("il2cpp_class_get_parent");
            reveal_strlit("WnhlxMYyqXH");
            lemma_no_nul_in_eleven(export_table()[51].1);
        }
    }
    assert(checked_below(53)) by {
        reveal(checked_below);
        assert(entry_checked(52)) by {
            reveal(export_table);
            reveal_strlit("il2cpp_class_get_declaring_type");
            reveal_strlit("WrizOXPSfDX");
            lemma_no_nul_in_eleven(export_table()[52].1);
        }
    }
    assert(checked_below(54)) by {
        reveal(checked_below);
        assert(entry_checked(53)) by {
            reveal(export_table);
            reveal_strlit("il2cpp_class_instance_size");
            reveal_strlit("cDrnGzyYYCV");
            lemma_no_nul_in_eleven(export_table()[53].1);
        }
    }
    assert(checked_below(55)) by {
        reveal(checked_below);
        assert(entry_checked(54)) by {
            reveal(export_table);
            reveal_strlit("il2cpp_class_num_fields");
            reveal_strlit("yZLIuPWSRcp");
            lemma_no_nul_in_eleven(export_table()[54].1);
        }
    }
    assert(checked_below(56)) by {
        reveal(checked_below);
        assert(entry_checked(55)) by {
            reveal(export_table);
            reveal_strlit("il2cpp_class_is_valuetype");
            reveal_strlit("NjDEOSOBNto");
            lemma_no_nul_in_eleven(export_table()[55].1);
        }
    }
    assert(checked_below(57)) by {
        reveal(checked_below);
        assert(entry_checked(56)) by {
            reveal(export_table);
            reveal_strlit("il2cpp_class_value_size");
            reveal_strlit("RtljfJxmxEU");
            lemma_no_nul_in_eleven(export_table()[56].1);
        }
    }
    assert(checked_below(58)) by {
        reveal(checked_below);
        assert(entry_checked(57)) by {
            reveal(export_table);
            reveal_strlit("il2cpp_class_is_blittable");
            reveal_strlit("HXApjJi_zkt");
            lemma_no_nul_in_eleven(export_table()[57].1);
        }
    }
    assert(checked_below(59)) by {
        reveal(checked_below);
        assert(entry_checked(58)) by {
            reveal(export_table);
            reveal_strlit("il2cpp_class_get_flags");
            reveal_strlit("PfeRozEYgvw");
            lemma_no_nul_in_eleven(export_table()[58].1);
        }
    }
    assert(checked_below(60)) by {
        reveal(checked_below);
        assert(entry_checked(59)) by {
            reveal(export_table);
            reveal_strlit("il2cpp_class_is_abstract");
            reveal_strlit("WzhlplRFtZf");
            lemma_no_nul_in_eleven(export_table()[59].1);
        }
    }
}

proof fn lemma_checked_60_80()
    requires
        checked_below(60),
    ensures
        checked_below(80),
{
    assert(checked_below(61)) by {
        reveal(checked_below);
        assert(entry_checked(60)) by {
            reveal(export_table);
            reveal_strlit("il2cpp_class_is_interface");
            reveal_strlit("WssGtOLCvEB");
            lemma_no_nul_in_eleven(export_table()[60].1);
        }
    }
    assert(checked_below(62)) by {
        reveal(checked_below);
        assert(entry_checked(61)) by {
            reveal(export_table);
            reveal_strlit("il2cpp_class_array_element_size");
            reveal_strlit("EumfCrOhMGs");
            lemma_no_nul_in_eleven(export_table()[61].1);
        }
    }
    assert(checked_below(63)) by {
        reveal(checked_below);
        assert(entry_checked(62)) by {
            reveal(export_table);
            reveal_strlit("il2cpp_class_from_type");
            reveal_strlit("smBQHSuYocJ");
            lemma_no_nul_in_eleven(export_table()[62].1);
        }
    }
    assert(checked_below(64)) by {
        reveal(checked_below);
        assert(entry_checked(63)) by {
            reveal(export_table);
            reveal_strlit("il2cpp_class_get_type");
            reveal_strlit("iFUPHlNvxHm");
            lemma_no_nul_in_eleven(export_table()[63].1);
        }
    }
    assert(checked_below(65)) by {
        reveal(checked_below);
        assert(entry_checked(64)) by {
            reveal(export_table);
            reveal_strlit("il2cpp_class_get_type_token");
            reveal_strlit("gKusixTMGyH");
            lemma_no_nul_in_eleven(export_table()[64].1);
        }
    }
    assert(checked_below(66)) by {
        reveal(checked_below);
        assert(entry_checked(65)) by {
            reveal(export_table);
            reveal_strlit("il2cpp_class_has_attribute");
            reveal_strlit("NvlrWGlVUQv");
            lemma_no_nul_in_eleven(export_table()[65].1);
        }
    }
    assert(checked_below(67)) by {
        reveal(checked_below);
        assert(entry_checked(66)) by {
            reveal(export_table);
            reveal_strlit("il2cpp_class_has_references");
            reveal_strlit("sXmkDWLesBx");
            lemma_no_nul_in_eleven(export_table()[66].1);
        }
    }
    assert(checked_below(68)) by {
        reveal(checked_below);
        assert(entry_checked(67)) by {
            reveal(export_table);
            reveal_strlit("il2cpp_class_is_enum");
            reveal_strlit("UlxOBFbttaI");
            lemma_no_nul_in_eleven(export_table()[67].1);
        }
    }
    assert(checked_below(69)) by {
        reveal(checked_below);
        assert(entry_checked(68)) by {
            reveal(export_table);
            reveal_strlit("il2cpp_class_get_image");
            reveal_strlit("DhWncAFKTmf");
            lemma_no_nul_in_eleven(export_table()[68].1);
        }
    }
    assert(checked_below(70)) by {
        reveal(checked_below);
        assert(entry_checked(69)) by {
            reveal(export_table);
            reveal_strlit("il2cpp_class_get_assemblyname");
            reveal_strlit("utbv_l_vaJh");
            lemma_no_nul_in_eleven(export_table()[69].1);
        }
    }
    assert(checked_below(71)) by {
        reveal(checked_below);
        assert(entry_checked(70)) by {
            reveal(export_table);
            reveal_strlit("il2cpp_class_get_rank");
            reveal_strlit("YlMdMSGIETk");
            lemma_no_nul_in_eleven(export_table()[70].1);
        }
    }
    assert(checked_below(72)) by {
        reveal(checked_below);
        assert(entry_checked(71)) by {
            reveal(export_table);
            reveal_strlit("il2cpp_class_get_data_size");
            reveal_strlit("eHFwUICBnYH");
            lemma_no_nul_in_eleven(export_table()[71].1);
        }
    }
    assert(checked_below(73)) by {
        reveal(checked_below);
        assert(entry_checked(72)) by {
            reveal(export_table);
            reveal_strlit("il2cpp_class_get_static_field_data");
            reveal_strlit("aNHKESETrgt");
            lemma_no_nul_in_eleven(export_table()[72].1);
        }
    }
    assert(checked_below(74)) by {
        reveal(checked_below);
        assert(entry_checked(73)) by {
            reveal(export_table);
            reveal_strlit("il2cpp_class_get_bitmap_size");
            reveal_strlit("WkzPjgTvSyM");
            lemma_no_nul_in_eleven(export_table()[73].1);
        }
    }
    assert(checked_below(75)) by {
        reveal(checked_below);
        assert(entry_checked(74)) by {
            reveal(export_table);
            reveal_strlit("il2cpp_class_get_bitmap");
            reveal_strlit("VhiRbDWWYeu");
            lemma_no_nul_in_eleven(export_table()[74].1);
        }
    }
    assert(checked_below(76)) by {
        reveal(checked_below);
        assert(entry_checked(75)) by {
            reveal(export_table);
            reveal_strlit("il2cpp_stats_dump_to_file");
            reveal_strlit("qxUbeLx_JRW");
            lemma_no_nul_in_eleven(export_table()[75].1);
        }
    }
    assert(checked_below(77)) by {
        reveal(checked_below);
        assert(entry_checked(76)) by {
            reveal(export_table);
            reveal_strlit("il2cpp_stats_get_value");
            reveal_strlit("mpPYSsTepIF");
            lemma_no_nul_in_eleven(export_table()[76].1);
        }
    }
    assert(checked_below(78)) by {
        reveal(checked_below);
        assert(entry_checked(77)) by {
            reveal(export_table);
            reveal_strlit("il2cpp_domain_get");
            reveal_strlit("dUunpQADaAk");
            lemma_no_nul_in_eleven(export_table()[77].1);
        }
    }
    assert(checked_below(79)) by {
        reveal(checked_below);
        assert(entry_checked(78)) by {
            reveal(export_table);
            reveal_strlit("il2cpp_domain_assembly_open");
            reveal_strlit("bzhujLBvtDQ");
            lemma_no_nul_in_eleven(export_table()[78].1);
        }
    }
    assert(checked_below(80)) by {
        reveal(checked_below);
        assert(entry_checked(79)) by {
            reveal(export_table);
            reveal_strlit("il2cpp_domain_get_assemblies");
            reveal_strlit("kSNWlvRcuDN");
            lemma_no_nul_in_eleven(export_table()[79].1);
        }
    }
}

proof fn lemma_checked_80_100()
    requires
        checked_below(80),
    ensures
        checked_below(100),
{
    assert(checked_below(81)) by {
        reveal(checked_below);
        assert(entry_checked(80)) by {
            reveal(export_table);
            reveal_strlit("il2cpp_raise_exception");
            reveal_strlit("YDFMwomdxHH");
            lemma_no_nul_in_eleven(export_table()[80].1);
        }
    }
    assert(checked_below(82)) by {
        reveal(checked_below);
        assert(entry_checked(81)) by {
            reveal(export_table);
            reveal_strlit("il2cpp_exception_from_name_msg");
            reveal_strlit("lfkDsxPTfxx");
            lemma_no_nul_in_eleven(export_table()[81].1);
        }
    }
    assert(checked_below(83)) by {
        reveal(checked_below);
        assert(entry_checked(82)) by {
            reveal(export_table);
            reveal_strlit("il2cpp_get_exception_argument_null");
            reveal_strlit("fOphHxtGNbi");
            lemma_no_nul_in_eleven(export_table()[82].1);
        }
    }
    assert(checked_below(84)) by {
        reveal(checked_below);
        assert(entry_checked(83)) by {
            reveal(export_table);
            reveal_strlit("il2cpp_format_exception");
            reveal_strlit("PWiBDLAcqEE");
            lemma_no_nul_in_eleven(export_table()[83].1);
        }
    }
    assert(checked_below(85)) by {
        reveal(checked_below);
        assert(entry_checked(84)) by {
            reveal(export_table);
            reveal_strlit("il2cpp_format_stack_trace");
            reveal_strlit("hYTrHKAtiVN");
            lemma_no_nul_in_eleven(export_table()[84].1);
        }
    }
    assert(checked_below(86)) by {
        reveal(checked_below);
        assert(entry_checked(85)) by {
            reveal(export_table);
            reveal_strlit("il2cpp_unhandled_exception");
            reveal_strlit("yDsipRDieRK");
            lemma_no_nul_in_eleven(export_table()[85].1);
        }
    }
    assert(checked_below(87)) by {
        reveal(checked_below);
        assert(entry_checked(86)) by {
            reveal(export_table);
            reveal_strlit("il2cpp_native_stack_trace");
            reveal_strlit("Tup_trWcPft");
            lemma_no_nul_in_eleven(export_table()[86].1);
        }
    }
    assert(checked_below(88)) by {
        reveal(checked_below);
        assert(entry_checked(87)) by {
            reveal(export_table);
            reveal_strlit("il2cpp_field_get_flags");
            reveal_strlit("kPkuadGKLtY");
            lemma_no_nul_in_eleven(export_table()[87].1);
        }
    }
    assert(checked_below(89)) by {
        reveal(checked_below);
        assert(entry_checked(88)) by {
            reveal(export_table);
            reveal_strlit("il2cpp_field_get_name");
            reveal_strlit("YsrafFiNMPb");
            lemma_no_nul_in_eleven(export_table()[88].1);
        }
    }
    assert(checked_below(90)) by {
        reveal(checked_below);
        assert(entry_checked(89)) by {
            reveal(export_table);
            reveal_strlit("il2cpp_field_get_parent");
            reveal_strlit("SCpPaWMGYuU");
            lemma_no_nul_in_eleven(export_table()[89].1);
        }
    }
    assert(checked_below(91)) by {
        reveal(checked_below);
        assert(entry_checked(90)) by {
            reveal(export_table);
            reveal_strlit("il2cpp_field_get_offset");
            reveal_strlit("YnxEeoyzDsw");
            lemma_no_nul_in_eleven(export_table()[90].1);
        }
    }
    assert(checked_below(92)) by {
        reveal(checked_below);
        assert(entry_checked(91)) by {
            reveal(export_table);
            reveal_strlit("il2cpp_field_get_type");
            reveal_strlit("vrXvLlMNtUF");
            lemma_no_nul_in_eleven(export_table()[91].1);
        }
    }
    assert(checked_below(93)) by {
        reveal(checked_below);
        assert(entry_checked(92)) by {
            reveal(export_table);
            reveal_strlit("il2cpp_field_get_value");
            reveal_strlit("jkItflHvEgX");
            lemma_no_nul_in_eleven(export_table()[92].1);
        }
    }
    assert(checked_below(94)) by {
        reveal(checked_below);
        assert(entry_checked(93)) by {
            reveal(export_table);
            reveal_strlit("il2cpp_field_get_value_object");
            reveal_strlit("nTqDKByJShq");
            lemma_no_nul_in_eleven(export_table()[93].1);
        }
    }
    assert(checked_below(95)) by {
        reveal(checked_below);
        assert(entry_checked(94)) by {
            reveal(export_table);
            reveal_strlit("il2cpp_field_has_attribute");
            reveal_strlit("GBoRqEfHSur");
            lemma_no_nul_in_eleven(export_table()[94].1);
        }
    }
    assert(checked_below(96)) by {
        reveal(checked_below);
        assert(entry_checked(95)) by {
            reveal(export_table);
            reveal_strlit("il2cpp_field_set_value");
            reveal_strlit("uEATVRQMULc");
            lemma_no_nul_in_eleven(export_table()[95].1);
        }
    }
    assert(checked_below(97)) by {
        reveal(checked_below);
        assert(entry_checked(96)) by {
            reveal(export_table);
            reveal_strlit("il2cpp_field_static_get_value");
            reveal_strlit("iL_PocEDOUL");
            lemma_no_nul_in_eleven(export_table()[96].1);
        }
    }
    assert(checked_below(98)) by {
        reveal(checked_below);
        assert(entry_checked(97)) by {
            reveal(export_table);
            reveal_strlit("il2cpp_field_static_set_value");
            reveal_strlit("bWETBqDYXSG");
            lemma_no_nul_in_eleven(export_table()[97].1);
        }
    }
    assert(checked_below(99)) by {
        reveal(checked_below);
        assert(entry_checked(98)) by {
            reveal(export_table);
            reveal_strlit("il2cpp_field_set_value_object");
            reveal_strlit("EZWtZRckXge");
            lemma_no_nul_in_eleven(export_table()[98].1);
        }
    }
    assert(checked_below(100)) by {
        reveal(checked_below);
        assert(entry_checked(99)) by {
            reveal(export_table);
            reveal_strlit("il2cpp_field_is_literal");
            reveal_strlit("ZpVlhnPyPjF");
            lemma_no_nul_in_eleven(export_table()[99].1);
        }
    }
}

proof fn lemma_checked_100_120()
    requires
        checked_below(100),
    ensures
        checked_below(120),
{
    assert(checked_below(101)) by {
        reveal(checked_below);
        assert(entry_checked(100)) by {
            reveal(export_table);
            reveal_strlit("il2cpp_gc_collect");
            reveal_strlit("cxFieV_KvfU");
            lemma_no_nul_in_eleven(export_table()[100].1);
        }
    }
    assert(checked_below(102)) by {
        reveal(checked_below);
        assert(entry_checked(101)) by {
            reveal(export_table);
            reveal_strlit("il2cpp_gc_collect_a_little");
            reveal_strlit("FLnvWMirTvD");
            lemma_no_nul_in_eleven(export_table()[101].1);
        }
    }
    assert(checked_below(103)) by {
        reveal(checked_below);
        assert(entry_checked(102)) by {
            reveal(export_table);
            reveal_strlit("il2cpp_gc_start_incremental_collection");
            reveal_strlit("WsXbVfkwBFl");
            lemma_no_nul_in_eleven(export_table()[102].1);
        }
    }
    assert(checked_below(104)) by {
        reveal(checked_below);
        assert(entry_checked(103)) by {
            reveal(export_table);
            reveal_strlit("il2cpp_gc_disable");
            reveal_strlit("OrADuiKfRaV");
            lemma_no_nul_in_eleven(export_table()[103].1);
        }
    }
    assert(checked_below(105)) by {
        reveal(checked_below);
        assert(entry_checked(104)) by {
            reveal(export_table);
            reveal_strlit("il2cpp_gc_enable");
            reveal_strlit("OnAc_HRKlnn");
            lemma_no_nul_in_eleven(export_table()[104].1);
        }
    }
    assert(checked_below(106)) by {
        reveal(checked_below);
        assert(entry_checked(105)) by {
            reveal(export_table);
            reveal_strlit("il2cpp_gc_is_disabled");
            reveal_strlit("CGhT_qkYMhz");
            lemma_no_nul_in_eleven(export_table()[105].1);
        }
    }
    assert(checked_below(107)) by {
        reveal(checked_below);
        assert(entry_checked(106)) by {
            reveal(export_table);
            reveal_strlit("il2cpp_gc_set_mode");
            reveal_strlit("knvVyiMUlFH");
            lemma_no_nul_in_eleven(export_table()[106].1);
        }
    }
    assert(checked_below(108)) by {
        reveal(checked_below);
        assert(entry_checked(107)) by {
            reveal(export_table);
            reveal_strlit("il2cpp_gc_get_max_time_slice_ns");
            reveal_strlit("xmHvAlsCgvg");
            lemma_no_nul_in_eleven(export_table()[107].1);
        }
    }
    assert(checked_below(109)) by {
        reveal(checked_below);
        assert(entry_checked(108)) by {
            reveal(export_table);
            reveal_strlit("il2cpp_gc_set_max_time_slice_ns");
            reveal_strlit("IAHkloIMjeA");
            lemma_no_nul_in_eleven(export_table()[108].1);
        }
    }
    assert(checked_below(110)) by {
        reveal(checked_below);
        assert(entry_checked(109)) by {
            reveal(export_table);
            reveal_strlit("il2cpp_gc_is_incremental");
            reveal_strlit("ezlpJ_GUuck");
            lemma_no_nul_in_eleven(export_table()[109].1);
        }
    }
    assert(checked_below(111)) by {
        reveal(checked_below);
        assert(entry_checked(110)) by {
            reveal(export_table);
            reveal_strlit("il2cpp_gc_get_used_size");
            reveal_strlit("_jtTAs_IieI");
            lemma_no_nul_in_eleven(export_table()[110].1);
        }
    }
    assert(checked_below(112)) by {
        reveal(checked_below);
        assert(entry_checked(111)) by {
            reveal(export_table);
            reveal_strlit("il2cpp_gc_get_heap_size");
            reveal_strlit("jlxgOdsyfel");
            lemma_no_nul_in_eleven(export_table()[111].1);
        }
    }
    assert(checked_below(113)) by {
        reveal(checked_below);
        assert(entry_checked(112)) by {
            reveal(export_table);
            reveal_strlit("il2cpp_gc_wbarrier_set_field");
            reveal_strlit("DDuUjGcKUaj");
            lemma_no_nul_in_eleven(export_table()[112].1);
        }
    }
    assert(checked_below(114)) by {
        reveal(checked_below);
        assert(entry_checked(113)) by {
            reveal(export_table);
            reveal_strlit("il2cpp_gc_has_strict_wbarriers");
            reveal_strlit("XIBLQ_EpJtY");
            lemma_no_nul_in_eleven(export_table()[113].1);
        }
    }
    assert(checked_below(115)) by {
        reveal(checked_below);
        assert(entry_checked(114)) by {
            reveal(export_table);
            reveal_strlit("il2cpp_gc_set_external_allocation_tracker");
            reveal_strlit("YMqyW_Qt_Ld");
            lemma_no_nul_in_eleven(export_table()[114].1);
        }
    }
    assert(checked_below(116)) by {
        reveal(checked_below);
        assert(entry_checked(115)) by {
            reveal(export_table);
            reveal_strlit("il2cpp_gc_set_external_wbarrier_tracker");
            reveal_strlit("yG_WSutBToN");
            lemma_no_nul_in_eleven(export_table()[115].1);
        }
    }
    assert(checked_below(117)) by {
        reveal(checked_below);
        assert(entry_checked(116)) by {
            reveal(export_table);
            reveal_strlit("il2cpp_gc_foreach_heap");
            reveal_strlit("dNQnXjbmJKE");
            lemma_no_nul_in_eleven(export_table()[116].1);
        }
    }
    assert(checked_below(118)) by {
        reveal(checked_below);
        assert(entry_checked(117)) by {
            reveal(export_table);
            reveal_strlit("il2cpp_stop_gc_world");
            reveal_strlit("mIgMYhkAJMu");
            lemma_no_nul_in_eleven(export_table()[117].1);
        }
    }
    assert(checked_below(119)) by {
        reveal(checked_below);
        assert(entry_checked(118)) by {
            reveal(export_table);
            reveal_strlit("il2cpp_start_gc_world");
            reveal_strlit("pqnyVuh_ujd");
            lemma_no_nul_in_eleven(export_table()[118].1);
        }
    }
    assert(checked_below(120)) by {
        reveal(checked_below);
        assert(entry_checked(119)) by {
            reveal(export_table);
            reveal_strlit("il2cpp_gc_alloc_fixed");
            reveal_strlit("iVJSVIQCwWl");
            lemma_no_nul_in_eleven(export_table()[119].1);
        }
    }
}

proof fn lemma_checked_120_140()
    requires
        checked_below(120),
    ensures
        checked_below(140),
{
    assert(checked_below(121)) by {
        reveal(checked_below);
        assert(entry_checked(120)) by {
            reveal(export_table);
            reveal_strlit("il2cpp_gc_free_fixed");
            reveal_strlit("xvhyUdIbVgy");
            lemma_no_nul_in_eleven(export_table()[120].1);
        }
    }
    assert(checked_below(122)) by {
        reveal(checked_below);
        assert(entry_checked(121)) by {
            reveal(export_table);
            reveal_strlit("il2cpp_gchandle_new");
            reveal_strlit("HRWlelkrVPt");
            lemma_no_nul_in_eleven(export_table()[121].1);
        }
    }
    assert(checked_below(123)) by {
        reveal(checked_below);
        assert(entry_checked(122)) by {
            reveal(export_table);
            reveal_strlit("il2cpp_gchandle_new_weakref");
            reveal_strlit("mZCAEcHuXyK");
            lemma_no_nul_in_eleven(export_table()[122].1);
        }
    }
    assert(checked_below(124)) by {
        reveal(checked_below);
        assert(entry_checked(123)) by {
            reveal(export_table);
            reveal_strlit("il2cpp_gchandle_get_target");
            reveal_strlit("TxCTtfvbDXh");
            lemma_no_nul_in_eleven(export_table()[123].1);
        }
    }
    assert(checked_below(125)) by {
        reveal(checked_below);
        assert(entry_checked(124)) by {
            reveal(export_table);
            reveal_strlit("il2cpp_gchandle_free");
            reveal_strlit("bETTzCiChhf");
            lemma_no_nul_in_eleven(export_table()[124].1);
        }
    }
    assert(checked_below(126)) by {
        reveal(checked_below);
        assert(entry_checked(125)) by {
            reveal(export_table);
            reveal_strlit("il2cpp_gchandle_foreach_get_target");
            reveal_strlit("OhgKQzlOETr");
            lemma_no_nul_in_eleven(export_table()[125].1);
        }
    }
    assert(checked_below(127)) by {
        reveal(checked_below);
        assert(entry_checked(126)) by {
            reveal(export_table);
            reveal_strlit("il2cpp_object_header_size");
            reveal_strlit("HJPxFieAabM");
            lemma_no_nul_in_eleven(export_table()[126].1);
        }
    }
    assert(checked_below(128)) by {
        reveal(checked_below);
        assert(entry_checked(127)) by {
            reveal(export_table);
            reveal_strlit("il2cpp_array_object_header_size");
            reveal_strlit("KrZKSmKtPJy");
            lemma_no_nul_in_eleven(export_table()[127].1);
        }
    }
    assert(checked_below(129)) by {
        reveal(checked_below);
        assert(entry_checked(128)) by {
            reveal(export_table);
            reveal_strlit("il2cpp_offset_of_array_length_in_array_object_header");
            reveal_strlit("ipNioOb_TTJ");
            lemma_no_nul_in_eleven(export_table()[128].1);
        }
    }
    assert(checked_below(130)) by {
        reveal(checked_below);
        assert(entry_checked(129)) by {
            reveal(export_table);
            reveal_strlit("il2cpp_offset_of_array_bounds_in_array_object_header");
            reveal_strlit("OpdiQkwodGd");
            lemma_no_nul_in_eleven(export_table()[129].1);
        }
    }
    assert(checked_below(131)) by {
        reveal(checked_below);
        assert(entry_checked(130)) by {
            reveal(export_table);
            reveal_strlit("il2cpp_allocation_granularity");
            reveal_strlit("jDHAPfbJGb_");
            lemma_no_nul_in_eleven(export_table()[130].1);
        }
    }
    assert(checked_below(132)) by {
        reveal(checked_below);
        assert(entry_checked(131)) by {
            reveal(export_table);
            reveal_strlit("il2cpp_unity_liveness_allocate_struct");
            reveal_strlit("YxvMvG_EOgK");
            lemma_no_nul_in_eleven(export_table()[131].1);
        }
    }
    assert(checked_below(133)) by {
        reveal(checked_below);
        assert(entry_checked(132)) by {
            reveal(export_table);
            reveal_strlit("il2cpp_unity_liveness_calculation_from_root");
            reveal_strlit("fxW_ygbYUpI");
            lemma_no_nul_in_eleven(export_table()[132].1);
        }
    }
    assert(checked_below(134)) by {
        reveal(checked_below);
        assert(entry_checked(133)) by {
            reveal(export_table);
            reveal_strlit("il2cpp_unity_liveness_calculation_from_statics");
            reveal_strlit("cmnrTHTRjeg");
            lemma_no_nul_in_eleven(export_table()[133].1);
        }
    }
    assert(checked_below(135)) by {
        reveal(checked_below);
        assert(entry_checked(134)) by {
            reveal(export_table);
            reveal_strlit("il2cpp_unity_liveness_finalize");
            reveal_strlit("ckudBVjX_tc");
            lemma_no_nul_in_eleven(export_table()[134].1);
        }
    }
    assert(checked_below(136)) by {
        reveal(checked_below);
        assert(entry_checked(135)) by {
            reveal(export_table);
            reveal_strlit("il2cpp_unity_liveness_free_struct");
            reveal_strlit("rQ_xDeHwdph");
            lemma_no_nul_in_eleven(export_table()[135].1);
        }
    }
    assert(checked_below(137)) by {
        reveal(checked_below);
        assert(entry_checked(136)) by {
            reveal(export_table);
            reveal_strlit("il2cpp_method_get_return_type");
            reveal_strlit("iOGphJxpUYi");
            lemma_no_nul_in_eleven(export_table()[136].1);
        }
    }
    assert(checked_below(138)) by {
        reveal(checked_below);
        assert(entry_checked(137)) by {
            reveal(export_table);
            reveal_strlit("il2cpp_method_get_declaring_type");
            reveal_strlit("SEwCkKakqHn");
            lemma_no_nul_in_eleven(export_table()[137].1);
        }
    }
    assert(checked_below(139)) by {
        reveal(checked_below);
        assert(entry_checked(138)) by {
            reveal(export_table);
            reveal_strlit("il2cpp_method_get_name");
            reveal_strlit("jgmSLpUuObu");
            lemma_no_nul_in_eleven(export_table()[138].1);
        }
    }
    assert(checked_below(140)) by {
        reveal(checked_below);
        assert(entry_checked(139)) by {
            reveal(export_table);
            reveal_strlit("il2cpp_method_get_from_reflection");
            reveal_strlit("bY_ngrNPSBp");
            lemma_no_nul_in_eleven(export_table()[139].1);
        }
    }
}

proof fn lemma_checked_140_160()
    requires
        checked_below(140),
    ensures
        checked_below(160),
{
    assert(checked_below(141)) by {
        reveal(checked_below);
        assert(entry_checked(140)) by {
            reveal(export_table);
            reveal_strlit("il2cpp_method_get_object");
            reveal_strlit("uJokkJUjpKT");
            lemma_no_nul_in_eleven(export_table()[140].1);
        }
    }
    assert(checked_below(142)) by {
        reveal(checked_below);
        assert(entry_checked(141)) by {
            reveal(export_table);
            reveal_strlit("il2cpp_method_is_generic");
            reveal_strlit("RaDdigmblJd");
            lemma_no_nul_in_eleven(export_table()[141].1);
        }
    }
    assert(checked_below(143)) by {
        reveal(checked_below);
        assert(entry_checked(142)) by {
            reveal(export_table);
            reveal_strlit("il2cpp_method_is_inflated");
            reveal_strlit("MHOEcxWMXnX");
            lemma_no_nul_in_eleven(export_table()[142].1);
        }
    }
    assert(checked_below(144)) by {
        reveal(checked_below);
        assert(entry_checked(143)) by {
            reveal(export_table);
            reveal_strlit("il2cpp_method_is_instance");
            reveal_strlit("FYYVhKttIeM");
            lemma_no_nul_in_eleven(export_table()[143].1);
        }
    }
    assert(checked_below(145)) by {
        reveal(checked_below);
        assert(entry_checked(144)) by {
            reveal(export_table);
            reveal_strlit("il2cpp_method_get_param_count");
            reveal_strlit("SSrrPJtgRsy");
            lemma_no_nul_in_eleven(export_table()[144].1);
        }
    }
    assert(checked_below(146)) by {
        reveal(checked_below);
        assert(entry_checked(145)) by {
            reveal(export_table);
            reveal_strlit("il2cpp_method_get_param");
            reveal_strlit("OiCJwDuUwiM");
            lemma_no_nul_in_eleven(export_table()[145].1);
        }
    }
    assert(checked_below(147)) by {
        reveal(checked_below);
        assert(entry_checked(146)) by {
            reveal(export_table);
            reveal_strlit("il2cpp_method_get_class");
            reveal_strlit("gOZrNrFqRag");
            lemma_no_nul_in_eleven(export_table()[146].1);
        }
    }
    assert(checked_below(148)) by {
        reveal(checked_below);
        assert(entry_checked(147)) by {
            reveal(export_table);
            reveal_strlit("il2cpp_method_has_attribute");
            reveal_strlit("ZXROjjfaFd_");
            lemma_no_nul_in_eleven(export_table()[147].1);
        }
    }
    assert(checked_below(149)) by {
        reveal(checked_below);
        assert(entry_checked(148)) by {
            reveal(export_table);
            reveal_strlit("il2cpp_method_get_flags");
            reveal_strlit("niJNnKvNPvP");
            lemma_no_nul_in_eleven(export_table()[148].1);
        }
    }
    assert(checked_below(150)) by {
        reveal(checked_below);
        assert(entry_checked(149)) by {
            reveal(export_table);
            reveal_strlit("il2cpp_method_get_token");
            reveal_strlit("YMPcFDDspTK");
            lemma_no_nul_in_eleven(export_table()[149].1);
        }
    }
    assert(checked_below(151)) by {
        reveal(checked_below);
        assert(entry_checked(150)) by {
            reveal(export_table);
            reveal_strlit("il2cpp_method_get_param_name");
            reveal_strlit("TH_aVezXhJW");
            lemma_no_nul_in_eleven(export_table()[150].1);
        }
    }
    assert(checked_below(152)) by {
        reveal(checked_below);
        assert(entry_checked(151)) by {
            reveal(export_table);
            reveal_strlit("il2cpp_property_get_flags");
            reveal_strlit("MIEDlUbeuMx");
            lemma_no_nul_in_eleven(export_table()[151].1);
        }
    }
    assert(checked_below(153)) by {
        reveal(checked_below);
        assert(entry_checked(152)) by {
            reveal(export_table);
            reveal_strlit("il2cpp_property_get_get_method");
            reveal_strlit("CStyEE_NTSO");
            lemma_no_nul_in_eleven(export_table()[152].1);
        }
    }
    assert(checked_below(154)) by {
        reveal(checked_below);
        assert(entry_checked(153)) by {
            reveal(export_table);
            reveal_strlit("il2cpp_property_get_set_method");
            reveal_strlit("ErevOpxaNmP");
            lemma_no_nul_in_eleven(export_table()[153].1);
        }
    }
    assert(checked_below(155)) by {
        reveal(checked_below);
        assert(entry_checked(154)) by {
            reveal(export_table);
            reveal_strlit("il2cpp_property_get_name");
            reveal_strlit("ZQdUTOLZwVf");
            lemma_no_nul_in_eleven(export_table()[154].1);
        }
    }
    assert(checked_below(156)) by {
        reveal(checked_below);
        assert(entry_checked(155)) by {
            reveal(export_table);
            reveal_strlit("il2cpp_property_get_parent");
            reveal_strlit("sbOVZuGEH_y");
            lemma_no_nul_in_eleven(export_table()[155].1);
        }
    }
    assert(checked_below(157)) by {
        reveal(checked_below);
        assert(entry_checked(156)) by {
            reveal(export_table);
            reveal_strlit("il2cpp_object_get_class");
            reveal_strlit("qbFQR_fYihi");
            lemma_no_nul_in_eleven(export_table()[156].1);
        }
    }
    assert(checked_below(158)) by {
        reveal(checked_below);
        assert(entry_checked(157)) by {
            reveal(export_table);
            reveal_strlit("il2cpp_object_get_size");
            reveal_strlit("dQqlXFwQrJp");
            lemma_no_nul_in_eleven(export_table()[157].1);
        }
    }
    assert(checked_below(159)) by {
        reveal(checked_below);
        assert(entry_checked(158)) by {
            reveal(export_table);
            reveal_strlit("il2cpp_object_get_virtual_method");
            reveal_strlit("uqHFVbHaEcE");
            lemma_no_nul_in_eleven(export_table()[158].1);
        }
    }
    assert(checked_below(160)) by {
        reveal(checked_below);
        assert(entry_checked(159)) by {
            reveal(export_table);
            reveal_strlit("il2cpp_object_new");
            reveal_strlit("WCEoPQXKscc");
            lemma_no_nul_in_eleven(export_table()[159].1);
        }
    }
}

proof fn lemma_checked_160_180()
    requires
        checked_below(160),
    ensures
        checked_below(180),
{
    assert(checked_below(161)) by {
        reveal(checked_below);
        assert(entry_checked(160)) by {
            reveal(export_table);
            reveal_strlit("il2cpp_object_unbox");
            reveal_strlit("syjaQBHbEba");
            lemma_no_nul_in_eleven(export_table()[160].1);
        }
    }
    assert(checked_below(162)) by {
        reveal(checked_below);
        assert(entry_checked(161)) by {
            reveal(export_table);
            reveal_strlit("il2cpp_value_box");
            reveal_strlit("NrgBtNRZraW");
            lemma_no_nul_in_eleven(export_table()[161].1);
        }
    }
    assert(checked_below(163)) by {
        reveal(checked_below);
        assert(entry_checked(162)) by {
            reveal(export_table);
            reveal_strlit("il2cpp_monitor_enter");
            reveal_strlit("awVxxaDkin_");
            lemma_no_nul_in_eleven(export_table()[162].1);
        }
    }
    assert(checked_below(164)) by {
        reveal(checked_below);
        assert(entry_checked(163)) by {
            reveal(export_table);
            reveal_strlit("il2cpp_monitor_try_enter");
            reveal_strlit("BcAaeBubdxr");
            lemma_no_nul_in_eleven(export_table()[163].1);
        }
    }
    assert(checked_below(165)) by {
        reveal(checked_below);
        assert(entry_checked(164)) by {
            reveal(export_table);
            reveal_strlit("il2cpp_monitor_exit");
            reveal_strlit("CKZFssaXtSR");
            lemma_no_nul_in_eleven(export_table()[164].1);
        }
    }
    assert(checked_below(166)) by {
        reveal(checked_below);
        assert(entry_checked(165)) by {
            reveal(export_table);
            reveal_strlit("il2cpp_monitor_pulse");
            reveal_strlit("BuJvkFvGnJJ");
            lemma_no_nul_in_eleven(export_table()[165].1);
        }
    }
    assert(checked_below(167)) by {
        reveal(checked_below);
        assert(entry_checked(166)) by {
            reveal(export_table);
            reveal_strlit("il2cpp_monitor_pulse_all");
            reveal_strlit("XSZeuqqCyAD");
            lemma_no_nul_in_eleven(export_table()[166].1);
        }
    }
    assert(checked_below(168)) by {
        reveal(checked_below);
        assert(entry_checked(167)) by {
            reveal(export_table);
            reveal_strlit("il2cpp_monitor_wait");
            reveal_strlit("nNNrsaoljaS");
            lemma_no_nul_in_eleven(export_table()[167].1);
        }
    }
    assert(checked_below(169)) by {
        reveal(checked_below);
        assert(entry_checked(168)) by {
            reveal(export_table);
            reveal_strlit("il2cpp_monitor_try_wait");
            reveal_strlit("mDSBbarFRGX");
            lemma_no_nul_in_eleven(export_table()[168].1);
        }
    }
    assert(checked_below(170)) by {
        reveal(checked_below);
        assert(entry_checked(169)) by {
            reveal(export_table);
            reveal_strlit("il2cpp_runtime_invoke");
            reveal_strlit("KsaFALsaHZl");
            lemma_no_nul_in_eleven(export_table()[169].1);
        }
    }
    assert(checked_below(171)) by {
        reveal(checked_below);
        assert(entry_checked(170)) by {
            reveal(export_table);
            reveal_strlit("il2cpp_runtime_invoke_convert_args");
            reveal_strlit("CcKieJOuNhD");
            lemma_no_nul_in_eleven(export_table()[170].1);
        }
    }
    assert(checked_below(172)) by {
        reveal(checked_below);
        assert(entry_checked(171)) by {
            reveal(export_table);
            reveal_strlit("il2cpp_runtime_class_init");
            reveal_strlit("HpawpbBmsnf");
            lemma_no_nul_in_eleven(export_table()[171].1);
        }
    }
    assert(checked_below(173)) by {
        reveal(checked_below);
        assert(entry_checked(172)) by {
            reveal(export_table);
            reveal_strlit("il2cpp_runtime_object_init");
            reveal_strlit("JEyEEDZogZe");
            lemma_no_nul_in_eleven(export_table()[172].1);
        }
    }
    assert(checked_below(174)) by {
        reveal(checked_below);
        assert(entry_checked(173)) by {
            reveal(export_table);
            reveal_strlit("il2cpp_runtime_object_init_exception");
            reveal_strlit("kFJQOElRJQz");
            lemma_no_nul_in_eleven(export_table()[173].1);
        }
    }
    assert(checked_below(175)) by {
        reveal(checked_below);
        assert(entry_checked(174)) by {
            reveal(export_table);
            reveal_strlit("il2cpp_runtime_unhandled_exception_policy_set");
            reveal_strlit("yuiRVqneHRq");
            lemma_no_nul_in_eleven(export_table()[174].1);
        }
    }
    assert(checked_below(176)) by {
        reveal(checked_below);
        assert(entry_checked(175)) by {
            reveal(export_table);
            reveal_strlit("il2cpp_string_length");
            reveal_strlit("DDuIaqSaJPb");
            lemma_no_nul_in_eleven(export_table()[175].1);
        }
    }
    assert(checked_below(177)) by {
        reveal(checked_below);
        assert(entry_checked(176)) by {
            reveal(export_table);
            reveal_strlit("il2cpp_string_chars");
            reveal_strlit("CAqjfDvGfOU");
            lemma_no_nul_in_eleven(export_table()[176].1);
        }
    }
    assert(checked_below(178)) by {
        reveal(checked_below);
        assert(entry_checked(177)) by {
            reveal(export_table);
            reveal_strlit("il2cpp_string_new");
            reveal_strlit("moZkrEOxnod");
            lemma_no_nul_in_eleven(export_table()[177].1);
        }
    }
    assert(checked_below(179)) by {
        reveal(checked_below);
        assert(entry_checked(178)) by {
            reveal(export_table);
            reveal_strlit("il2cpp_string_new_len");
            reveal_strlit("HiNmwaRQnUU");
            lemma_no_nul_in_eleven(export_table()[178].1);
        }
    }
    assert(checked_below(180)) by {
        reveal(checked_below);
        assert(entry_checked(179)) by {
            reveal(export_table);
            reveal_strlit("il2cpp_string_new_utf16");
            reveal_strlit("FQBIXIelhkZ");
            lemma_no_nul_in_eleven(export_table()[179].1);
        }
    }
}

proof fn lemma_checked_180_200()
    requires
        checked_below(180),
    ensures
        checked_below(200),
{
    assert(checked_below(181)) by {
        reveal(checked_below);
        assert(entry_checked(180)) by {
            reveal(export_table);
            reveal_strlit("il2cpp_string_new_wrapper");
            reveal_strlit("sodVkROQWPR");
            lemma_no_nul_in_eleven(export_table()[180].1);
        }
    }
    assert(checked_below(182)) by {
        reveal(checked_below);
        assert(entry_checked(181)) by {
            reveal(export_table);
            reveal_strlit("il2cpp_string_intern");
            reveal_strlit("browFOTyQoT");
            lemma_no_nul_in_eleven(export_table()[181].1);
        }
    }
    assert(checked_below(183)) by {
        reveal(checked_below);
        assert(entry_checked(182)) by {
            reveal(export_table);
            reveal_strlit("il2cpp_string_is_interned");
            reveal_strlit("TmLQdbMHyHl");
            lemma_no_nul_in_eleven(export_table()[182].1);
        }
    }
    assert(checked_below(184)) by {
        reveal(checked_below);
        assert(entry_checked(183)) by {
            reveal(export_table);
            reveal_strlit("il2cpp_thread_current");
            reveal_strlit("XHlseHzpXli");
            lemma_no_nul_in_eleven(export_table()[183].1);
        }
    }
    assert(checked_below(185)) by {
        reveal(checked_below);
        assert(entry_checked(184)) by {
            reveal(export_table);
            reveal_strlit("il2cpp_thread_attach");
            reveal_strlit("yXKCkTHabfE");
            lemma_no_nul_in_eleven(export_table()[184].1);
        }
    }
    assert(checked_below(186)) by {
        reveal(checked_below);
        assert(entry_checked(185)) by {
            reveal(export_table);
            reveal_strlit("il2cpp_thread_detach");
            reveal_strlit("mUkuUnAcYiz");
            lemma_no_nul_in_eleven(export_table()[185].1);
        }
    }
    assert(checked_below(187)) by {
        reveal(checked_below);
        assert(entry_checked(186)) by {
            reveal(export_table);
            reveal_strlit("il2cpp_thread_get_all_attached_threads");
            reveal_strlit("rpORpEUDUUG");
            lemma_no_nul_in_eleven(export_table()[186].1);
        }
    }
    assert(checked_below(188)) by {
        reveal(checked_below);
        assert(entry_checked(187)) by {
            reveal(export_table);
            reveal_strlit("il2cpp_is_vm_thread");
            reveal_strlit("YTwnbYaBvtF");
            lemma_no_nul_in_eleven(export_table()[187].1);
        }
    }
    assert(checked_below(189)) by {
        reveal(checked_below);
        assert(entry_checked(188)) by {
            reveal(export_table);
            reveal_strlit("il2cpp_current_thread_walk_frame_stack");
            reveal_strlit("_kIiiFONOWj");
            lemma_no_nul_in_eleven(export_table()[188].1);
        }
    }
    assert(checked_below(190)) by {
        reveal(checked_below);
        assert(entry_checked(189)) by {
            reveal(export_table);
            reveal_strlit("il2cpp_thread_walk_frame_stack");
            reveal_strlit("txCdvPkSQ_U");
            lemma_no_nul_in_eleven(export_table()[189].1);
        }
    }
    assert(checked_below(191)) by {
        reveal(checked_below);
        assert(entry_checked(190)) by {
            reveal(export_table);
            reveal_strlit("il2cpp_current_thread_get_top_frame");
            reveal_strlit("aBVnkQmVagn");
            lemma_no_nul_in_eleven(export_table()[190].1);
        }
    }
    assert(checked_below(192)) by {
        reveal(checked_below);
        assert(entry_checked(191)) by {
            reveal(export_table);
            reveal_strlit("il2cpp_thread_get_top_frame");
            reveal_strlit("QfgAeisWpKk");
            lemma_no_nul_in_eleven(export_table()[191].1);
        }
    }
    assert(checked_below(193)) by {
        reveal(checked_below);
        assert(entry_checked(192)) by {
            reveal(export_table);
            reveal_strlit("il2cpp_current_thread_get_frame_at");
            reveal_strlit("ljruylFjhzQ");
            lemma_no_nul_in_eleven(export_table()[192].1);
        }
    }
    assert(checked_below(194)) by {
        reveal(checked_below);
        assert(entry_checked(193)) by {
            reveal(export_table);
            reveal_strlit("il2cpp_thread_get_frame_at");
            reveal_strlit("vfdtQi_BLnN");
            lemma_no_nul_in_eleven(export_table()[193].1);
        }
    }
    assert(checked_below(195)) by {
        reveal(checked_below);
        assert(entry_checked(194)) by {
            reveal(export_table);
            reveal_strlit("il2cpp_current_thread_get_stack_depth");
            reveal_strlit("_jfwrZMaxrS");
            lemma_no_nul_in_eleven(export_table()[194].1);
        }
    }
    assert(checked_below(196)) by {
        reveal(checked_below);
        assert(entry_checked(195)) by {
            reveal(export_table);
            reveal_strlit("il2cpp_thread_get_stack_depth");
            reveal_strlit("zxvFVDsgBzv");
            lemma_no_nul_in_eleven(export_table()[195].1);
        }
    }
    assert(checked_below(197)) by {
        reveal(checked_below);
        assert(entry_checked(196)) by {
            reveal(export_table);
            reveal_strlit("il2cpp_override_stack_backtrace");
            reveal_strlit("AgtoKcmHcDU");
            lemma_no_nul_in_eleven(export_table()[196].1);
        }
    }
    assert(checked_below(198)) by {
        reveal(checked_below);
        assert(entry_checked(197)) by {
            reveal(export_table);
            reveal_strlit("il2cpp_type_get_object");
            reveal_strlit("tRAcfCA_cJ_");
            lemma_no_nul_in_eleven(export_table()[197].1);
        }
    }
    assert(checked_below(199)) by {
        reveal(checked_below);
        assert(entry_checked(198)) by {
            reveal(export_table);
            reveal_strlit("il2cpp_type_get_type");
            reveal_strlit("YqifqTyuPPh");
            lemma_no_nul_in_eleven(export_table()[198].1);
        }
    }
    assert(checked_below(200)) by {
        reveal(checked_below);
        assert(entry_checked(199)) by {
            reveal(export_table);
            reveal_strlit("il2cpp_type_get_class_or_element_class");
            reveal_strlit("T__hQLBTfcK");
            lemma_no_nul_in_eleven(export_table()[199].1);
        }
    }
}

proof fn lemma_checked_200_220()
    requires
        checked_below(200),
    ensures
        checked_below(220),
{
    assert(checked_below(201)) by {
        reveal(checked_below);
        assert(entry_checked(200)) by {
            reveal(export_table);
            reveal_strlit("il2cpp_type_get_name");
            reveal_strlit("hLEJNjZDdWu");
            lemma_no_nul_in_eleven(export_table()[200].1);
        }
    }
    assert(checked_below(202)) by {
        reveal(checked_below);
        assert(entry_checked(201)) by {
            reveal(export_table);
            reveal_strlit("il2cpp_type_is_byref");
            reveal_strlit("CLNqWpxdFVp");
            lemma_no_nul_in_eleven(export_table()[201].1);
        }
    }
    assert(checked_below(203)) by {
        reveal(checked_below);
        assert(entry_checked(202)) by {
            reveal(export_table);
            reveal_strlit("il2cpp_type_get_attrs");
            reveal_strlit("Uz_cHOJRUgo");
            lemma_no_nul_in_eleven(export_table()[202].1);
        }
    }
    assert(checked_below(204)) by {
        reveal(checked_below);
        assert(entry_checked(203)) by {
            reveal(export_table);
            reveal_strlit("il2cpp_type_equals");
            reveal_strlit("AridOgtMmI_");
            lemma_no_nul_in_eleven(export_table()[203].1);
        }
    }
    assert(checked_below(205)) by {
        reveal(checked_below);
        assert(entry_checked(204)) by {
            reveal(export_table);
            reveal_strlit("il2cpp_type_get_assembly_qualified_name");
            reveal_strlit("rrU_vIEwXbL");
            lemma_no_nul_in_eleven(export_table()[204].1);
        }
    }
    assert(checked_below(206)) by {
        reveal(checked_below);
        assert(entry_checked(205)) by {
            reveal(export_table);
            reveal_strlit("il2cpp_type_get_reflection_name");
            reveal_strlit("snWGrBGxadY");
            lemma_no_nul_in_eleven(export_table()[205].1);
        }
    }
    assert(checked_below(207)) by {
        reveal(checked_below);
        assert(entry_checked(206)) by {
            reveal(export_table);
            reveal_strlit("il2cpp_type_is_static");
            reveal_strlit("ffYPiNKgTWN");
            lemma_no_nul_in_eleven(export_table()[206].1);
        }
    }
    assert(checked_below(208)) by {
        reveal(checked_below);
        assert(entry_checked(207)) by {
            reveal(export_table);
            reveal_strlit("il2cpp_type_is_pointer_type");
            reveal_strlit("BgeV_bMfWIG");
            lemma_no_nul_in_eleven(export_table()[207].1);
        }
    }
    assert(checked_below(209)) by {
        reveal(checked_below);
        assert(entry_checked(208)) by {
            reveal(export_table);
            reveal_strlit("il2cpp_image_get_assembly");
            reveal_strlit("BNuYOmYhPYR");
            lemma_no_nul_in_eleven(export_table()[208].1);
        }
    }
    assert(checked_below(210)) by {
        reveal(checked_below);
        assert(entry_checked(209)) by {
            reveal(export_table);
            reveal_strlit("il2cpp_image_get_name");
            reveal_strlit("ikzAkyTEACE");
            lemma_no_nul_in_eleven(export_table()[209].1);
        }
    }
    assert(checked_below(211)) by {
        reveal(checked_below);
        assert(entry_checked(210)) by {
            reveal(export_table);
            reveal_strlit("il2cpp_image_get_filename");
            reveal_strlit("oZQRiHguhsf");
            lemma_no_nul_in_eleven(export_table()[210].1);
        }
    }
    assert(checked_below(212)) by {
        reveal(checked_below);
        assert(entry_checked(211)) by {
            reveal(export_table);
            reveal_strlit("il2cpp_image_get_entry_point");
            reveal_strlit("btgtJbGbhiv");
            lemma_no_nul_in_eleven(export_table()[211].1);
        }
    }
    assert(checked_below(213)) by {
        reveal(checked_below);
        assert(entry_checked(212)) by {
            reveal(export_table);
            reveal_strlit("il2cpp_image_get_class_count");
            reveal_strlit("CQzpQfpTRri");
            lemma_no_nul_in_eleven(export_table()[212].1);
        }
    }
    assert(checked_below(214)) by {
        reveal(checked_below);
        assert(entry_checked(213)) by {
            reveal(export_table);
            reveal_strlit("il2cpp_image_get_class");
            reveal_strlit("zUdXVkYrdqv");
            lemma_no_nul_in_eleven(export_table()[213].1);
        }
    }
    assert(checked_below(215)) by {
        reveal(checked_below);
        assert(entry_checked(214)) by {
            reveal(export_table);
            reveal_strlit("il2cpp_capture_memory_snapshot");
            reveal_strlit("mplYajYvgG_");
            lemma_no_nul_in_eleven(export_table()[214].1);
        }
    }
    assert(checked_below(216)) by {
        reveal(checked_below);
        assert(entry_checked(215)) by {
            reveal(export_table);
            reveal_strlit("il2cpp_free_captured_memory_snapshot");
            reveal_strlit("EFaaD_TxFmT");
            lemma_no_nul_in_eleven(export_table()[215].1);
        }
    }
    assert(checked_below(217)) by {
        reveal(checked_below);
        assert(entry_checked(216)) by {
            reveal(export_table);
            reveal_strlit("il2cpp_set_find_plugin_callback");
            reveal_strlit("mpxpzMXGXjG");
            lemma_no_nul_in_eleven(export_table()[216].1);
        }
    }
    assert(checked_below(218)) by {
        reveal(checked_below);
        assert(entry_checked(217)) by {
            reveal(export_table);
            reveal_strlit("il2cpp_register_log_callback");
            reveal_strlit("oHdI_cT_Dzm");
            lemma_no_nul_in_eleven(export_table()[217].1);
        }
    }
    assert(checked_below(219)) by {
        reveal(checked_below);
        assert(entry_checked(218)) by {
            reveal(export_table);
            reveal_strlit("il2cpp_debugger_set_agent_options");
            reveal_strlit("yTOgoQPzSCr");
            lemma_no_nul_in_eleven(export_table()[218].1);
        }
    }
    assert(checked_below(220)) by {
        reveal(checked_below);
        assert(entry_checked(219)) by {
            reveal(export_table);
            reveal_strlit("il2cpp_is_debugger_attached");
            reveal_strlit("hJkADbjlltQ");
            lemma_no_nul_in_eleven(export_table()[219].1);
        }
    }
}

proof fn lemma_checked_220_234()
    requires
        checked_below(220),
    ensures
        checked_below(234),
{
    assert(checked_below(221)) by {
        reveal(checked_below);
        assert(entry_checked(220)) by {
            reveal(export_table);
            reveal_strlit("il2cpp_register_debugger_agent_transport");
            reveal_strlit("hKyInMXWsOU");
            lemma_no_nul_in_eleven(export_table()[220].1);
        }
    }
    assert(checked_below(222)) by {
        reveal(checked_below);
        assert(entry_checked(221)) by {
            reveal(export_table);
            reveal_strlit("il2cpp_debug_get_method_info");
            reveal_strlit("FqpgSyKjrdo");
            lemma_no_nul_in_eleven(export_table()[221].1);
        }
    }
    assert(checked_below(223)) by {
        reveal(checked_below);
        assert(entry_checked(222)) by {
            reveal(export_table);
            reveal_strlit("il2cpp_unity_install_unitytls_interface");
            reveal_strlit("JigYUjFcHix");
            lemma_no_nul_in_eleven(export_table()[222].1);
        }
    }
    assert(checked_below(224)) by {
        reveal(checked_below);
        assert(entry_checked(223)) by {
            reveal(export_table);
            reveal_strlit("il2cpp_custom_attrs_from_class");
            reveal_strlit("wDJQiJNSxdU");
            lemma_no_nul_in_eleven(export_table()[223].1);
        }
    }
    assert(checked_below(225)) by {
        reveal(checked_below);
        assert(entry_checked(224)) by {
            reveal(export_table);
            reveal_strlit("il2cpp_custom_attrs_from_method");
            reveal_strlit("hdgWuNBjZHE");
            lemma_no_nul_in_eleven(export_table()[224].1);
        }
    }
    assert(checked_below(226)) by {
        reveal(checked_below);
        assert(entry_checked(225)) by {
            reveal(export_table);
            reveal_strlit("il2cpp_custom_attrs_from_field");
            reveal_strlit("TSNtIHFohaO");
            lemma_no_nul_in_eleven(export_table()[225].1);
        }
    }
    assert(checked_below(227)) by {
        reveal(checked_below);
        assert(entry_checked(226)) by {
            reveal(export_table);
            reveal_strlit("il2cpp_custom_attrs_get_attr");
            reveal_strlit("jtFcNDldAcC");
            lemma_no_nul_in_eleven(export_table()[226].1);
        }
    }
    assert(checked_below(228)) by {
        reveal(checked_below);
        assert(entry_checked(227)) by {
            reveal(export_table);
            reveal_strlit("il2cpp_custom_attrs_has_attr");
            reveal_strlit("iFJnoOxafey");
            lemma_no_nul_in_eleven(export_table()[227].1);
        }
    }
    assert(checked_below(229)) by {
        reveal(checked_below);
        assert(entry_checked(228)) by {
            reveal(export_table);
            reveal_strlit("il2cpp_custom_attrs_construct");
            reveal_strlit("KPoSbzPCuBP");
            lemma_no_nul_in_eleven(export_table()[228].1);
        }
    }
    assert(checked_below(230)) by {
        reveal(checked_below);
        assert(entry_checked(229)) by {
            reveal(export_table);
            reveal_strlit("il2cpp_custom_attrs_free");
            reveal_strlit("YMpwqonKaMS");
            lemma_no_nul_in_eleven(export_table()[229].1);
        }
    }
    assert(checked_below(231)) by {
        reveal(checked_below);
        assert(entry_checked(230)) by {
            reveal(export_table);
            reveal_strlit("il2cpp_class_set_userdata");
            reveal_strlit("IN_yUMndXZh");
            lemma_no_nul_in_eleven(export_table()[230].1);
        }
    }
    assert(checked_below(232)) by {
        reveal(checked_below);
        assert(entry_checked(231)) by {
            reveal(export_table);
            reveal_strlit("il2cpp_class_get_userdata_offset");
            reveal_strlit("iDJFVOADMyw");
            lemma_no_nul_in_eleven(export_table()[231].1);
        }
    }
    assert(checked_below(233)) by {
        reveal(checked_below);
        assert(entry_checked(232)) by {
            reveal(export_table);
            reveal_strlit("il2cpp_set_default_thread_affinity");
            reveal_strlit("ygXP_vcjIjp");
            lemma_no_nul_in_eleven(export_table()[232].1);
        }
    }
    assert(checked_below(234)) by {
        reveal(checked_below);
        assert(entry_checked(233)) by {
            reveal(export_table);
            reveal_strlit("il2cpp_unity_set_android_network_up_state_func");
            reveal_strlit("vq_ROHDlwlL");
            lemma_no_nul_in_eleven(export_table()[233].1);
        }
    }
}

/// Every entry of the export table is checked.
proof fn lemma_all_checked()
    ensures
        forall|i: int| 0 <= i < export_table().len() ==> #[trigger] entry_checked(i),
{
    lemma_checked_0_20();
    lemma_checked_20_40();
    lemma_checked_40_60();
    lemma_checked_60_80();
    lemma_checked_80_100();
    lemma_checked_100_120();
    lemma_checked_120_140();
    lemma_checked_140_160();
    lemma_checked_160_180();
    lemma_checked_180_200();
    lemma_checked_200_220();
    lemma_checked_220_234();
    assert(export_table().len() == 234) by {
        reveal(export_table);
    }
    reveal(checked_below);
}

/// No two entries of the export table have the same name.
pub proof fn lemma_names_distinct()
    ensures
        forall|i: int, j: int|
            0 <= i < j < export_table().len() ==> export_table()[i].0 != export_table()[j].0,
{
    lemma_all_checked();
    assert forall|i: int, j: int|
        0 <= i < j < export_table().len() implies export_table()[i].0 != export_table()[j].0 by {
        assert(entry_checked(i));
        assert(entry_checked(j));
    }
}

/// No obfuscated name in the export table holds a NUL character.
pub proof fn lemma_obfuscated_names_have_no_nul()
    ensures
        forall|i: int|
            0 <= i < export_table().len() ==> !(#[trigger] export_table()[i]).1.contains('\0'),
{
    lemma_all_checked();
    assert forall|i: int| 0 <= i < export_table().len() implies !(
    #[trigger] export_table()[i]).1.contains('\0') by {
        assert(entry_checked(i));
    }
}

/// No obfuscated name in the export table is also the name of an entry.
pub proof fn lemma_obfuscated_names_are_not_names()
    ensures
        forall|i: int, j: int|
            0 <= i < export_table().len() && 0 <= j < export_table().len() ==> export_table()[i].1
                != export_table()[j].0,
{
    lemma_all_checked();
    assert forall|i: int, j: int|
        0 <= i < export_table().len() && 0 <= j < export_table().len() implies export_table()[i].1
            != export_table()[j].0 by {
        assert(entry_checked(i));
        assert(entry_checked(j));
    }
}

} // verus!
