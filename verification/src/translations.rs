//! What the lookup answers for each export of the il2cpp runtime, name by
//! name.
use vstd::prelude::*;

use crate::exports::{export_table, lemma_obfuscated_names_have_no_nul};
use crate::libs::{lemma_every_entry_is_found, spec_get, spec_get_value};
use crate::text::{lemma_no_nul_char_no_nul_byte, utf8_bytes};

verus! {

/// `name` translates to `obfuscated`: `get_value` answers `Some(obfuscated)`,
/// `get` answers `obfuscated`, and resolving `name` asks the loader for
/// `obfuscated`, which holds no zero byte and so passes as a C string.
pub open spec fn translates(name: Seq<char>, obfuscated: Seq<char>) -> bool {
    &&& spec_get_value(name) == Some(obfuscated)
    &&& spec_get(name) == obfuscated
    &&& !utf8_bytes(obfuscated).contains(0u8)
}

/// Every entry of the table translates its name to its obfuscated name.
pub proof fn lemma_entry_translates(i: int)
    requires
        0 <= i < export_table().len(),
    ensures
        translates(export_table()[i].0, export_table()[i].1),
{
    lemma_every_entry_is_found(i);
    lemma_obfuscated_names_have_no_nul();
    assert(!export_table()[i].1.contains('\0'));
    lemma_no_nul_char_no_nul_byte(export_table()[i].1);
}

proof fn lemma_translations_0_20()
    ensures
        translates("il2cpp_init"@, "GdnPlVZEdxf"@),
        translates("il2cpp_init_utf16"@, "xeESwBbuab_"@),
        translates("il2cpp_shutdown"@, "nKyghkcwxJe"@),
        translates("il2cpp_set_config_dir"@, "XiKOzOdJsYE"@),
        translates("il2cpp_set_data_dir"@, "AbJEjDq_zgF"@),
        translates("il2cpp_set_temp_dir"@, "JerpDnxOVno"@),
        translates("il2cpp_set_commandline_arguments"@, "NkyFkhKjXDP"@),
        translates("il2cpp_set_commandline_arguments_utf16"@, "UfNXctJaZQO"@),
        translates("il2cpp_set_config_utf16"@, "MJdRIVcUmWY"@),
        translates("il2cpp_set_config"@, "igjWeppGXcn"@),
        translates("il2cpp_set_memory_callbacks"@, "NPuDEZOXejP"@),
        translates("il2cpp_memory_pool_set_region_size"@, "EAFNJ_FIJYK"@),
        translates("il2cpp_memory_pool_get_region_size"@, "gdwVBiglIWC"@),
        translates("il2cpp_get_corlib"@, "NGbgctWOdID"@),
        translates("il2cpp_add_internal_call"@, "kdoNiyv_Qhd"@),
        translates("il2cpp_resolve_icall"@, "UWZdnspJd_I"@),
        translates("il2cpp_alloc"@, "KaCKWSaBPCP"@),
        translates("il2cpp_free"@, "PRfrmVSTTrU"@),
        translates("il2cpp_array_class_get"@, "LAiuXZUDdNh"@),
        translates("il2cpp_array_length"@, "QRIjzueyGZT"@),
{
    reveal(export_table);
    lemma_entry_translates(0);
    lemma_entry_translates(1);
    lemma_entry_translates(2);
    lemma_entry_translates(3);
    lemma_entry_translates(4);
    lemma_entry_translates(5);
    lemma_entry_translates(6);
    lemma_entry_translates(7);
    lemma_entry_translates(8);
    lemma_entry_translates(9);
    lemma_entry_translates(10);
    lemma_entry_translates(11);
    lemma_entry_translates(12);
    lemma_entry_translates(13);
    lemma_entry_translates(14);
    lemma_entry_translates(15);
    lemma_entry_translates(16);
    lemma_entry_translates(17);
    lemma_entry_translates(18);
    lemma_entry_translates(19);
}

proof fn lemma_translations_20_40()
    ensures
        translates("il2cpp_array_get_byte_length"@, "jzmYhGGuWvJ"@),
        translates("il2cpp_array_new"@, "Nlz_loEWfav"@),
        translates("il2cpp_array_new_specific"@, "KBFdoRXhdON"@),
        translates("il2cpp_array_new_full"@, "cJrJgWxPWSl"@),
        translates("il2cpp_bounded_array_class_get"@, "fyViQqbTTPe"@),
        translates("il2cpp_array_element_size"@, "rYLHFyGgORz"@),
        translates("il2cpp_assembly_get_image"@, "WrPjnXSxwvx"@),
        translates("il2cpp_class_for_each"@, "bU_ybtImqeh"@),
        translates("il2cpp_class_enum_basetype"@, "GgOmkULknVl"@),
        translates("il2cpp_class_is_inited"@, "gnQolWebGMV"@),
        translates("il2cpp_class_is_generic"@, "zLPRtXMqDka"@),
        translates("il2cpp_class_is_inflated"@, "vkWLZpdNfvo"@),
        translates("il2cpp_class_is_assignable_from"@, "XkjrtGAMQyu"@),
        translates("il2cpp_class_is_subclass_of"@, "bXykbnZeM__"@),
        translates("il2cpp_class_has_parent"@, "rFwPWfVVfiU"@),
        translates("il2cpp_class_from_il2cpp_type"@, "OCipriHLgON"@),
        translates("il2cpp_class_from_name"@, "lQyvUscAGEB"@),
        translates("il2cpp_class_from_system_type"@, "UgeTybrtfli"@),
        translates("il2cpp_class_get_element_class"@, "rLtGEybL_mo"@),
        translates("il2cpp_class_get_events"@, "WYodECZGcFP"@),
{
    reveal(export_table);
    lemma_entry_translates(20);
    lemma_entry_translates(21);
    lemma_entry_translates(22);
    lemma_entry_translates(23);
    lemma_entry_translates(24);
    lemma_entry_translates(25);
    lemma_entry_translates(26);
    lemma_entry_translates(27);
    lemma_entry_translates(28);
    lemma_entry_translates(29);
    lemma_entry_translates(30);
    lemma_entry_translates(31);
    lemma_entry_translates(32);
    lemma_entry_translates(33);
    lemma_entry_translates(34);
    lemma_entry_translates(35);
    lemma_entry_translates(36);
    lemma_entry_translates(37);
    lemma_entry_translates(38);
    lemma_entry_translates(39);
}

proof fn lemma_translations_40_60()
    ensures
        translates("il2cpp_class_get_fields"@, "QZg_eWEoySR"@),
        translates("il2cpp_class_get_nested_types"@, "gcfwVglwRWR"@),
        translates("il2cpp_class_get_interfaces"@, "wfeudlBuJmW"@),
        translates("il2cpp_class_get_properties"@, "ONYXmIhnfVE"@),
        translates("il2cpp_class_get_property_from_name"@, "fHtXWY_hYew"@),
        translates("il2cpp_class_get_field_from_name"@, "pwnfMkbaSCR"@),
        translates("il2cpp_class_get_methods"@, "XnXhgwwvBVH"@),
        translates("il2cpp_class_get_method_from_name"@, "LmZVehSCtkU"@),
        translates("il2cpp_class_get_name"@, "dswOlGpdlQB"@),
        translates("il2cpp_type_get_name_chunked"@, "XvW_nQkLeKA"@),
        translates("il2cpp_class_get_namespace"@, "WBDCidKvO_s"@),
        translates("il2cpp_class_get_parent"@, "WnhlxMYyqXH"@),
        translates("il2cpp_class_get_declaring_type"@, "WrizOXPSfDX"@),
        translates("il2cpp_class_instance_size"@, "cDrnGzyYYCV"@),
        translates("il2cpp_class_num_fields"@, "yZLIuPWSRcp"@),
        translates("il2cpp_class_is_valuetype"@, "NjDEOSOBNto"@),
        translates("il2cpp_class_value_size"@, "RtljfJxmxEU"@),
        translates("il2cpp_class_is_blittable"@, "HXApjJi_zkt"@),
        translates("il2cpp_class_get_flags"@, "PfeRozEYgvw"@),
        translates("il2cpp_class_is_abstract"@, "WzhlplRFtZf"@),
{
    reveal(export_table);
    lemma_entry_translates(40);
    lemma_entry_translates(41);
    lemma_entry_translates(42);
    lemma_entry_translates(43);
    lemma_entry_translates(44);
    lemma_entry_translates(45);
    lemma_entry_translates(46);
    lemma_entry_translates(47);
    lemma_entry_translates(48);
    lemma_entry_translates(49);
    lemma_entry_translates(50);
    lemma_entry_translates(51);
    lemma_entry_translates(52);
    lemma_entry_translates(53);
    lemma_entry_translates(54);
    lemma_entry_translates(55);
    lemma_entry_translates(56);
    lemma_entry_translates(57);
    lemma_entry_translates(58);
    lemma_entry_translates(59);
}

proof fn lemma_translations_60_80()
    ensures
        translates("il2cpp_class_is_interface"@, "WssGtOLCvEB"@),
        translates("il2cpp_class_array_element_size"@, "EumfCrOhMGs"@),
        translates("il2cpp_class_from_type"@, "smBQHSuYocJ"@),
        translates("il2cpp_class_get_type"@, "iFUPHlNvxHm"@),
        translates("il2cpp_class_get_type_token"@, "gKusixTMGyH"@),
        translates("il2cpp_class_has_attribute"@, "NvlrWGlVUQv"@),
        translates("il2cpp_class_has_references"@, "sXmkDWLesBx"@),
        translates("il2cpp_class_is_enum"@, "UlxOBFbttaI"@),
        translates("il2cpp_class_get_image"@, "DhWncAFKTmf"@),
        translates("il2cpp_class_get_assemblyname"@, "utbv_l_vaJh"@),
        translates("il2cpp_class_get_rank"@, "YlMdMSGIETk"@),
        translates("il2cpp_class_get_data_size"@, "eHFwUICBnYH"@),
        translates("il2cpp_class_get_static_field_data"@, "aNHKESETrgt"@),
        translates("il2cpp_class_get_bitmap_size"@, "WkzPjgTvSyM"@),
        translates("il2cpp_class_get_bitmap"@, "VhiRbDWWYeu"@),
        translates("il2cpp_stats_dump_to_file"@, "qxUbeLx_JRW"@),
        translates("il2cpp_stats_get_value"@, "mpPYSsTepIF"@),
        translates("il2cpp_domain_get"@, "dUunpQADaAk"@),
        translates("il2cpp_domain_assembly_open"@, "bzhujLBvtDQ"@),
        translates("il2cpp_domain_get_assemblies"@, "kSNWlvRcuDN"@),
{
    reveal(export_table);
    lemma_entry_translates(60);
    lemma_entry_translates(61);
    lemma_entry_translates(62);
    lemma_entry_translates(63);
    lemma_entry_translates(64);
    lemma_entry_translates(65);
    lemma_entry_translates(66);
    lemma_entry_translates(67);
    lemma_entry_translates(68);
    lemma_entry_translates(69);
    lemma_entry_translates(70);
    lemma_entry_translates(71);
    lemma_entry_translates(72);
    lemma_entry_translates(73);
    lemma_entry_translates(74);
    lemma_entry_translates(75);
    lemma_entry_translates(76);
    lemma_entry_translates(77);
    lemma_entry_translates(78);
    lemma_entry_translates(79);
}

proof fn lemma_translations_80_100()
    ensures
        translates("il2cpp_raise_exception"@, "YDFMwomdxHH"@),
        translates("il2cpp_exception_from_name_msg"@, "lfkDsxPTfxx"@),
        translates("il2cpp_get_exception_argument_null"@, "fOphHxtGNbi"@),
        translates("il2cpp_format_exception"@, "PWiBDLAcqEE"@),
        translates("il2cpp_format_stack_trace"@, "hYTrHKAtiVN"@),
        translates("il2cpp_unhandled_exception"@, "yDsipRDieRK"@),
        translates("il2cpp_native_stack_trace"@, "Tup_trWcPft"@),
        translates("il2cpp_field_get_flags"@, "kPkuadGKLtY"@),
        translates("il2cpp_field_get_name"@, "YsrafFiNMPb"@),
        translates("il2cpp_field_get_parent"@, "SCpPaWMGYuU"@),
        translates("il2cpp_field_get_offset"@, "YnxEeoyzDsw"@),
        translates("il2cpp_field_get_type"@, "vrXvLlMNtUF"@),
        translates("il2cpp_field_get_value"@, "jkItflHvEgX"@),
        translates("il2cpp_field_get_value_object"@, "nTqDKByJShq"@),
        translates("il2cpp_field_has_attribute"@, "GBoRqEfHSur"@),
        translates("il2cpp_field_set_value"@, "uEATVRQMULc"@),
        translates("il2cpp_field_static_get_value"@, "iL_PocEDOUL"@),
        translates("il2cpp_field_static_set_value"@, "bWETBqDYXSG"@),
        translates("il2cpp_field_set_value_object"@, "EZWtZRckXge"@),
        translates("il2cpp_field_is_literal"@, "ZpVlhnPyPjF"@),
{
    reveal(export_table);
    lemma_entry_translates(80);
    lemma_entry_translates(81);
    lemma_entry_translates(82);
    lemma_entry_translates(83);
    lemma_entry_translates(84);
    lemma_entry_translates(85);
    lemma_entry_translates(86);
    lemma_entry_translates(87);
    lemma_entry_translates(88);
    lemma_entry_translates(89);
    lemma_entry_translates(90);
    lemma_entry_translates(91);
    lemma_entry_translates(92);
    lemma_entry_translates(93);
    lemma_entry_translates(94);
    lemma_entry_translates(95);
    lemma_entry_translates(96);
    lemma_entry_translates(97);
    lemma_entry_translates(98);
    lemma_entry_translates(99);
}

proof fn lemma_translations_100_120()
    ensures
        translates("il2cpp_gc_collect"@, "cxFieV_KvfU"@),
        translates("il2cpp_gc_collect_a_little"@, "FLnvWMirTvD"@),
        translates("il2cpp_gc_start_incremental_collection"@, "WsXbVfkwBFl"@),
        translates("il2cpp_gc_disable"@, "OrADuiKfRaV"@),
        translates("il2cpp_gc_enable"@, "OnAc_HRKlnn"@),
        translates("il2cpp_gc_is_disabled"@, "CGhT_qkYMhz"@),
        translates("il2cpp_gc_set_mode"@, "knvVyiMUlFH"@),
        translates("il2cpp_gc_get_max_time_slice_ns"@, "xmHvAlsCgvg"@),
        translates("il2cpp_gc_set_max_time_slice_ns"@, "IAHkloIMjeA"@),
        translates("il2cpp_gc_is_incremental"@, "ezlpJ_GUuck"@),
        translates("il2cpp_gc_get_used_size"@, "_jtTAs_IieI"@),
        translates("il2cpp_gc_get_heap_size"@, "jlxgOdsyfel"@),
        translates("il2cpp_gc_wbarrier_set_field"@, "DDuUjGcKUaj"@),
        translates("il2cpp_gc_has_strict_wbarriers"@, "XIBLQ_EpJtY"@),
        translates("il2cpp_gc_set_external_allocation_tracker"@, "YMqyW_Qt_Ld"@),
        translates("il2cpp_gc_set_external_wbarrier_tracker"@, "yG_WSutBToN"@),
        translates("il2cpp_gc_foreach_heap"@, "dNQnXjbmJKE"@),
        translates("il2cpp_stop_gc_world"@, "mIgMYhkAJMu"@),
        translates("il2cpp_start_gc_world"@, "pqnyVuh_ujd"@),
        translates("il2cpp_gc_alloc_fixed"@, "iVJSVIQCwWl"@),
{
    reveal(export_table);
    lemma_entry_translates(100);
    lemma_entry_translates(101);
    lemma_entry_translates(102);
    lemma_entry_translates(103);
    lemma_entry_translates(104);
    lemma_entry_translates(105);
    lemma_entry_translates(106);
    lemma_entry_translates(107);
    lemma_entry_translates(108);
    lemma_entry_translates(109);
    lemma_entry_translates(110);
    lemma_entry_translates(111);
    lemma_entry_translates(112);
    lemma_entry_translates(113);
    lemma_entry_translates(114);
    lemma_entry_translates(115);
    lemma_entry_translates(116);
    lemma_entry_translates(117);
    lemma_entry_translates(118);
    lemma_entry_translates(119);
}

proof fn lemma_translations_120_140()
    ensures
        translates("il2cpp_gc_free_fixed"@, "xvhyUdIbVgy"@),
        translates("il2cpp_gchandle_new"@, "HRWlelkrVPt"@),
        translates("il2cpp_gchandle_new_weakref"@, "mZCAEcHuXyK"@),
        translates("il2cpp_gchandle_get_target"@, "TxCTtfvbDXh"@),
        translates("il2cpp_gchandle_free"@, "bETTzCiChhf"@),
        translates("il2cpp_gchandle_foreach_get_target"@, "OhgKQzlOETr"@),
        translates("il2cpp_object_header_size"@, "HJPxFieAabM"@),
        translates("il2cpp_array_object_header_size"@, "KrZKSmKtPJy"@),
        translates("il2cpp_offset_of_array_length_in_array_object_header"@, "ipNioOb_TTJ"@),
        translates("il2cpp_offset_of_array_bounds_in_array_object_header"@, "OpdiQkwodGd"@),
        translates("il2cpp_allocation_granularity"@, "jDHAPfbJGb_"@),
        translates("il2cpp_unity_liveness_allocate_struct"@, "YxvMvG_EOgK"@),
        translates("il2cpp_unity_liveness_calculation_from_root"@, "fxW_ygbYUpI"@),
        translates("il2cpp_unity_liveness_calculation_from_statics"@, "cmnrTHTRjeg"@),
        translates("il2cpp_unity_liveness_finalize"@, "ckudBVjX_tc"@),
        translates("il2cpp_unity_liveness_free_struct"@, "rQ_xDeHwdph"@),
        translates("il2cpp_method_get_return_type"@, "iOGphJxpUYi"@),
        translates("il2cpp_method_get_declaring_type"@, "SEwCkKakqHn"@),
        translates("il2cpp_method_get_name"@, "jgmSLpUuObu"@),
        translates("il2cpp_method_get_from_reflection"@, "bY_ngrNPSBp"@),
{
    reveal(export_table);
    lemma_entry_translates(120);
    lemma_entry_translates(121);
    lemma_entry_translates(122);
    lemma_entry_translates(123);
    lemma_entry_translates(124);
    lemma_entry_translates(125);
    lemma_entry_translates(126);
    lemma_entry_translates(127);
    lemma_entry_translates(128);
    lemma_entry_translates(129);
    lemma_entry_translates(130);
    lemma_entry_translates(131);
    lemma_entry_translates(132);
    lemma_entry_translates(133);
    lemma_entry_translates(134);
    lemma_entry_translates(135);
    lemma_entry_translates(136);
    lemma_entry_translates(137);
    lemma_entry_translates(138);
    lemma_entry_translates(139);
}

proof fn lemma_translations_140_160()
    ensures
        translates("il2cpp_method_get_object"@, "uJokkJUjpKT"@),
        translates("il2cpp_method_is_generic"@, "RaDdigmblJd"@),
        translates("il2cpp_method_is_inflated"@, "MHOEcxWMXnX"@),
        translates("il2cpp_method_is_instance"@, "FYYVhKttIeM"@),
        translates("il2cpp_method_get_param_count"@, "SSrrPJtgRsy"@),
        translates("il2cpp_method_get_param"@, "OiCJwDuUwiM"@),
        translates("il2cpp_method_get_class"@, "gOZrNrFqRag"@),
        translates("il2cpp_method_has_attribute"@, "ZXROjjfaFd_"@),
        translates("il2cpp_method_get_flags"@, "niJNnKvNPvP"@),
        translates("il2cpp_method_get_token"@, "YMPcFDDspTK"@),
        translates("il2cpp_method_get_param_name"@, "TH_aVezXhJW"@),
        translates("il2cpp_property_get_flags"@, "MIEDlUbeuMx"@),
        translates("il2cpp_property_get_get_method"@, "CStyEE_NTSO"@),
        translates("il2cpp_property_get_set_method"@, "ErevOpxaNmP"@),
        translates("il2cpp_property_get_name"@, "ZQdUTOLZwVf"@),
        translates("il2cpp_property_get_parent"@, "sbOVZuGEH_y"@),
        translates("il2cpp_object_get_class"@, "qbFQR_fYihi"@),
        translates("il2cpp_object_get_size"@, "dQqlXFwQrJp"@),
        translates("il2cpp_object_get_virtual_method"@, "uqHFVbHaEcE"@),
        translates("il2cpp_object_new"@, "WCEoPQXKscc"@),
{
    reveal(export_table);
    lemma_entry_translates(140);
    lemma_entry_translates(141);
    lemma_entry_translates(142);
    lemma_entry_translates(143);
    lemma_entry_translates(144);
    lemma_entry_translates(145);
    lemma_entry_translates(146);
    lemma_entry_translates(147);
    lemma_entry_translates(148);
    lemma_entry_translates(149);
    lemma_entry_translates(150);
    lemma_entry_translates(151);
    lemma_entry_translates(152);
    lemma_entry_translates(153);
    lemma_entry_translates(154);
    lemma_entry_translates(155);
    lemma_entry_translates(156);
    lemma_entry_translates(157);
    lemma_entry_translates(158);
    lemma_entry_translates(159);
}

proof fn lemma_translations_160_180()
    ensures
        translates("il2cpp_object_unbox"@, "syjaQBHbEba"@),
        translates("il2cpp_value_box"@, "NrgBtNRZraW"@),
        translates("il2cpp_monitor_enter"@, "awVxxaDkin_"@),
        translates("il2cpp_monitor_try_enter"@, "BcAaeBubdxr"@),
        translates("il2cpp_monitor_exit"@, "CKZFssaXtSR"@),
        translates("il2cpp_monitor_pulse"@, "BuJvkFvGnJJ"@),
        translates("il2cpp_monitor_pulse_all"@, "XSZeuqqCyAD"@),
        translates("il2cpp_monitor_wait"@, "nNNrsaoljaS"@),
        translates("il2cpp_monitor_try_wait"@, "mDSBbarFRGX"@),
        translates("il2cpp_runtime_invoke"@, "KsaFALsaHZl"@),
        translates("il2cpp_runtime_invoke_convert_args"@, "CcKieJOuNhD"@),
        translates("il2cpp_runtime_class_init"@, "HpawpbBmsnf"@),
        translates("il2cpp_runtime_object_init"@, "JEyEEDZogZe"@),
        translates("il2cpp_runtime_object_init_exception"@, "kFJQOElRJQz"@),
        translates("il2cpp_runtime_unhandled_exception_policy_set"@, "yuiRVqneHRq"@),
        translates("il2cpp_string_length"@, "DDuIaqSaJPb"@),
        translates("il2cpp_string_chars"@, "CAqjfDvGfOU"@),
        translates("il2cpp_string_new"@, "moZkrEOxnod"@),
        translates("il2cpp_string_new_len"@, "HiNmwaRQnUU"@),
        translates("il2cpp_string_new_utf16"@, "FQBIXIelhkZ"@),
{
    reveal(export_table);
    lemma_entry_translates(160);
    lemma_entry_translates(161);
    lemma_entry_translates(162);
    lemma_entry_translates(163);
    lemma_entry_translates(164);
    lemma_entry_translates(165);
    lemma_entry_translates(166);
    lemma_entry_translates(167);
    lemma_entry_translates(168);
    lemma_entry_translates(169);
    lemma_entry_translates(170);
    lemma_entry_translates(171);
    lemma_entry_translates(172);
    lemma_entry_translates(173);
    lemma_entry_translates(174);
    lemma_entry_translates(175);
    lemma_entry_translates(176);
    lemma_entry_translates(177);
    lemma_entry_translates(178);
    lemma_entry_translates(179);
}

proof fn lemma_translations_180_200()
    ensures
        translates("il2cpp_string_new_wrapper"@, "sodVkROQWPR"@),
        translates("il2cpp_string_intern"@, "browFOTyQoT"@),
        translates("il2cpp_string_is_interned"@, "TmLQdbMHyHl"@),
        translates("il2cpp_thread_current"@, "XHlseHzpXli"@),
        translates("il2cpp_thread_attach"@, "yXKCkTHabfE"@),
        translates("il2cpp_thread_detach"@, "mUkuUnAcYiz"@),
        translates("il2cpp_thread_get_all_attached_threads"@, "rpORpEUDUUG"@),
        translates("il2cpp_is_vm_thread"@, "YTwnbYaBvtF"@),
        translates("il2cpp_current_thread_walk_frame_stack"@, "_kIiiFONOWj"@),
        translates("il2cpp_thread_walk_frame_stack"@, "txCdvPkSQ_U"@),
        translates("il2cpp_current_thread_get_top_frame"@, "aBVnkQmVagn"@),
        translates("il2cpp_thread_get_top_frame"@, "QfgAeisWpKk"@),
        translates("il2cpp_current_thread_get_frame_at"@, "ljruylFjhzQ"@),
        translates("il2cpp_thread_get_frame_at"@, "vfdtQi_BLnN"@),
        translates("il2cpp_current_thread_get_stack_depth"@, "_jfwrZMaxrS"@),
        translates("il2cpp_thread_get_stack_depth"@, "zxvFVDsgBzv"@),
        translates("il2cpp_override_stack_backtrace"@, "AgtoKcmHcDU"@),
        translates("il2cpp_type_get_object"@, "tRAcfCA_cJ_"@),
        translates("il2cpp_type_get_type"@, "YqifqTyuPPh"@),
        translates("il2cpp_type_get_class_or_element_class"@, "T__hQLBTfcK"@),
{
    reveal(export_table);
    lemma_entry_translates(180);
    lemma_entry_translates(181);
    lemma_entry_translates(182);
    lemma_entry_translates(183);
    lemma_entry_translates(184);
    lemma_entry_translates(185);
    lemma_entry_translates(186);
    lemma_entry_translates(187);
    lemma_entry_translates(188);
    lemma_entry_translates(189);
    lemma_entry_translates(190);
    lemma_entry_translates(191);
    lemma_entry_translates(192);
    lemma_entry_translates(193);
    lemma_entry_translates(194);
    lemma_entry_translates(195);
    lemma_entry_translates(196);
    lemma_entry_translates(197);
    lemma_entry_translates(198);
    lemma_entry_translates(199);
}

proof fn lemma_translations_200_220()
    ensures
        translates("il2cpp_type_get_name"@, "hLEJNjZDdWu"@),
        translates("il2cpp_type_is_byref"@, "CLNqWpxdFVp"@),
        translates("il2cpp_type_get_attrs"@, "Uz_cHOJRUgo"@),
        translates("il2cpp_type_equals"@, "AridOgtMmI_"@),
        translates("il2cpp_type_get_assembly_qualified_name"@, "rrU_vIEwXbL"@),
        translates("il2cpp_type_get_reflection_name"@, "snWGrBGxadY"@),
        translates("il2cpp_type_is_static"@, "ffYPiNKgTWN"@),
        translates("il2cpp_type_is_pointer_type"@, "BgeV_bMfWIG"@),
        translates("il2cpp_image_get_assembly"@, "BNuYOmYhPYR"@),
        translates("il2cpp_image_get_name"@, "ikzAkyTEACE"@),
        translates("il2cpp_image_get_filename"@, "oZQRiHguhsf"@),
        translates("il2cpp_image_get_entry_point"@, "btgtJbGbhiv"@),
        translates("il2cpp_image_get_class_count"@, "CQzpQfpTRri"@),
        translates("il2cpp_image_get_class"@, "zUdXVkYrdqv"@),
        translates("il2cpp_capture_memory_snapshot"@, "mplYajYvgG_"@),
        translates("il2cpp_free_captured_memory_snapshot"@, "EFaaD_TxFmT"@),
        translates("il2cpp_set_find_plugin_callback"@, "mpxpzMXGXjG"@),
        translates("il2cpp_register_log_callback"@, "oHdI_cT_Dzm"@),
        translates("il2cpp_debugger_set_agent_options"@, "yTOgoQPzSCr"@),
        translates("il2cpp_is_debugger_attached"@, "hJkADbjlltQ"@),
{
    reveal(export_table);
    lemma_entry_translates(200);
    lemma_entry_translates(201);
    lemma_entry_translates(202);
    lemma_entry_translates(203);
    lemma_entry_translates(204);
    lemma_entry_translates(205);
    lemma_entry_translates(206);
    lemma_entry_translates(207);
    lemma_entry_translates(208);
    lemma_entry_translates(209);
    lemma_entry_translates(210);
    lemma_entry_translates(211);
    lemma_entry_translates(212);
    lemma_entry_translates(213);
    lemma_entry_translates(214);
    lemma_entry_translates(215);
    lemma_entry_translates(216);
    lemma_entry_translates(217);
    lemma_entry_translates(218);
    lemma_entry_translates(219);
}

proof fn lemma_translations_220_234()
    ensures
        translates("il2cpp_register_debugger_agent_transport"@, "hKyInMXWsOU"@),
        translates("il2cpp_debug_get_method_info"@, "FqpgSyKjrdo"@),
        translates("il2cpp_unity_install_unitytls_interface"@, "JigYUjFcHix"@),
        translates("il2cpp_custom_attrs_from_class"@, "wDJQiJNSxdU"@),
        translates("il2cpp_custom_attrs_from_method"@, "hdgWuNBjZHE"@),
        translates("il2cpp_custom_attrs_from_field"@, "TSNtIHFohaO"@),
        translates("il2cpp_custom_attrs_get_attr"@, "jtFcNDldAcC"@),
        translates("il2cpp_custom_attrs_has_attr"@, "iFJnoOxafey"@),
        translates("il2cpp_custom_attrs_construct"@, "KPoSbzPCuBP"@),
        translates("il2cpp_custom_attrs_free"@, "YMpwqonKaMS"@),
        translates("il2cpp_class_set_userdata"@, "IN_yUMndXZh"@),
        translates("il2cpp_class_get_userdata_offset"@, "iDJFVOADMyw"@),
        translates("il2cpp_set_default_thread_affinity"@, "ygXP_vcjIjp"@),
        translates("il2cpp_unity_set_android_network_up_state_func"@, "vq_ROHDlwlL"@),
{
    reveal(export_table);
    lemma_entry_translates(220);
    lemma_entry_translates(221);
    lemma_entry_translates(222);
    lemma_entry_translates(223);
    lemma_entry_translates(224);
    lemma_entry_translates(225);
    lemma_entry_translates(226);
    lemma_entry_translates(227);
    lemma_entry_translates(228);
    lemma_entry_translates(229);
    lemma_entry_translates(230);
    lemma_entry_translates(231);
    lemma_entry_translates(232);
    lemma_entry_translates(233);
}

/// Each export of the il2cpp runtime translates to the obfuscated name under
/// which the runtime exports it.
pub proof fn lemma_exports_translate()
    ensures
        translates("il2cpp_init"@, "GdnPlVZEdxf"@),
        translates("il2cpp_init_utf16"@, "xeESwBbuab_"@),
        translates("il2cpp_shutdown"@, "nKyghkcwxJe"@),
        translates("il2cpp_set_config_dir"@, "XiKOzOdJsYE"@),
        translates("il2cpp_set_data_dir"@, "AbJEjDq_zgF"@),
        translates("il2cpp_set_temp_dir"@, "JerpDnxOVno"@),
        translates("il2cpp_set_commandline_arguments"@, "NkyFkhKjXDP"@),
        translates("il2cpp_set_commandline_arguments_utf16"@, "UfNXctJaZQO"@),
        translates("il2cpp_set_config_utf16"@, "MJdRIVcUmWY"@),
        translates("il2cpp_set_config"@, "igjWeppGXcn"@),
        translates("il2cpp_set_memory_callbacks"@, "NPuDEZOXejP"@),
        translates("il2cpp_memory_pool_set_region_size"@, "EAFNJ_FIJYK"@),
        translates("il2cpp_memory_pool_get_region_size"@, "gdwVBiglIWC"@),
        translates("il2cpp_get_corlib"@, "NGbgctWOdID"@),
        translates("il2cpp_add_internal_call"@, "kdoNiyv_Qhd"@),
        translates("il2cpp_resolve_icall"@, "UWZdnspJd_I"@),
        translates("il2cpp_alloc"@, "KaCKWSaBPCP"@),
        translates("il2cpp_free"@, "PRfrmVSTTrU"@),
        translates("il2cpp_array_class_get"@, "LAiuXZUDdNh"@),
        translates("il2cpp_array_length"@, "QRIjzueyGZT"@),
        translates("il2cpp_array_get_byte_length"@, "jzmYhGGuWvJ"@),
        translates("il2cpp_array_new"@, "Nlz_loEWfav"@),
        translates("il2cpp_array_new_specific"@, "KBFdoRXhdON"@),
        translates("il2cpp_array_new_full"@, "cJrJgWxPWSl"@),
        translates("il2cpp_bounded_array_class_get"@, "fyViQqbTTPe"@),
        translates("il2cpp_array_element_size"@, "rYLHFyGgORz"@),
        translates("il2cpp_assembly_get_image"@, "WrPjnXSxwvx"@),
        translates("il2cpp_class_for_each"@, "bU_ybtImqeh"@),
        translates("il2cpp_class_enum_basetype"@, "GgOmkULknVl"@),
        translates("il2cpp_class_is_inited"@, "gnQolWebGMV"@),
        translates("il2cpp_class_is_generic"@, "zLPRtXMqDka"@),
        translates("il2cpp_class_is_inflated"@, "vkWLZpdNfvo"@),
        translates("il2cpp_class_is_assignable_from"@, "XkjrtGAMQyu"@),
        translates("il2cpp_class_is_subclass_of"@, "bXykbnZeM__"@),
        translates("il2cpp_class_has_parent"@, "rFwPWfVVfiU"@),
        translates("il2cpp_class_from_il2cpp_type"@, "OCipriHLgON"@),
        translates("il2cpp_class_from_name"@, "lQyvUscAGEB"@),
        translates("il2cpp_class_from_system_type"@, "UgeTybrtfli"@),
        translates("il2cpp_class_get_element_class"@, "rLtGEybL_mo"@),
        translates("il2cpp_class_get_events"@, "WYodECZGcFP"@),
        translates("il2cpp_class_get_fields"@, "QZg_eWEoySR"@),
        translates("il2cpp_class_get_nested_types"@, "gcfwVglwRWR"@),
        translates("il2cpp_class_get_interfaces"@, "wfeudlBuJmW"@),
        translates("il2cpp_class_get_properties"@, "ONYXmIhnfVE"@),
        translates("il2cpp_class_get_property_from_name"@, "fHtXWY_hYew"@),
        translates("il2cpp_class_get_field_from_name"@, "pwnfMkbaSCR"@),
        translates("il2cpp_class_get_methods"@, "XnXhgwwvBVH"@),
        translates("il2cpp_class_get_method_from_name"@, "LmZVehSCtkU"@),
        translates("il2cpp_class_get_name"@, "dswOlGpdlQB"@),
        translates("il2cpp_type_get_name_chunked"@, "XvW_nQkLeKA"@),
        translates("il2cpp_class_get_namespace"@, "WBDCidKvO_s"@),
        translates("il2cpp_class_get_parent"@, "WnhlxMYyqXH"@),
        translates("il2cpp_class_get_declaring_type"@, "WrizOXPSfDX"@),
        translates("il2cpp_class_instance_size"@, "cDrnGzyYYCV"@),
        translates("il2cpp_class_num_fields"@, "yZLIuPWSRcp"@),
        translates("il2cpp_class_is_valuetype"@, "NjDEOSOBNto"@),
        translates("il2cpp_class_value_size"@, "RtljfJxmxEU"@),
        translates("il2cpp_class_is_blittable"@, "HXApjJi_zkt"@),
        translates("il2cpp_class_get_flags"@, "PfeRozEYgvw"@),
        translates("il2cpp_class_is_abstract"@, "WzhlplRFtZf"@),
        translates("il2cpp_class_is_interface"@, "WssGtOLCvEB"@),
        translates("il2cpp_class_array_element_size"@, "EumfCrOhMGs"@),
        translates("il2cpp_class_from_type"@, "smBQHSuYocJ"@),
        translates("il2cpp_class_get_type"@, "iFUPHlNvxHm"@),
        translates("il2cpp_class_get_type_token"@, "gKusixTMGyH"@),
        translates("il2cpp_class_has_attribute"@, "NvlrWGlVUQv"@),
        translates("il2cpp_class_has_references"@, "sXmkDWLesBx"@),
        translates("il2cpp_class_is_enum"@, "UlxOBFbttaI"@),
        translates("il2cpp_class_get_image"@, "DhWncAFKTmf"@),
        translates("il2cpp_class_get_assemblyname"@, "utbv_l_vaJh"@),
        translates("il2cpp_class_get_rank"@, "YlMdMSGIETk"@),
        translates("il2cpp_class_get_data_size"@, "eHFwUICBnYH"@),
        translates("il2cpp_class_get_static_field_data"@, "aNHKESETrgt"@),
        translates("il2cpp_class_get_bitmap_size"@, "WkzPjgTvSyM"@),
        translates("il2cpp_class_get_bitmap"@, "VhiRbDWWYeu"@),
        translates("il2cpp_stats_dump_to_file"@, "qxUbeLx_JRW"@),
        translates("il2cpp_stats_get_value"@, "mpPYSsTepIF"@),
        translates("il2cpp_domain_get"@, "dUunpQADaAk"@),
        translates("il2cpp_domain_assembly_open"@, "bzhujLBvtDQ"@),
        translates("il2cpp_domain_get_assemblies"@, "kSNWlvRcuDN"@),
        translates("il2cpp_raise_exception"@, "YDFMwomdxHH"@),
        translates("il2cpp_exception_from_name_msg"@, "lfkDsxPTfxx"@),
        translates("il2cpp_get_exception_argument_null"@, "fOphHxtGNbi"@),
        translates("il2cpp_format_exception"@, "PWiBDLAcqEE"@),
        translates("il2cpp_format_stack_trace"@, "hYTrHKAtiVN"@),
        translates("il2cpp_unhandled_exception"@, "yDsipRDieRK"@),
        translates("il2cpp_native_stack_trace"@, "Tup_trWcPft"@),
        translates("il2cpp_field_get_flags"@, "kPkuadGKLtY"@),
        translates("il2cpp_field_get_name"@, "YsrafFiNMPb"@),
        translates("il2cpp_field_get_parent"@, "SCpPaWMGYuU"@),
        translates("il2cpp_field_get_offset"@, "YnxEeoyzDsw"@),
        translates("il2cpp_field_get_type"@, "vrXvLlMNtUF"@),
        translates("il2cpp_field_get_value"@, "jkItflHvEgX"@),
        translates("il2cpp_field_get_value_object"@, "nTqDKByJShq"@),
        translates("il2cpp_field_has_attribute"@, "GBoRqEfHSur"@),
        translates("il2cpp_field_set_value"@, "uEATVRQMULc"@),
        translates("il2cpp_field_static_get_value"@, "iL_PocEDOUL"@),
        translates("il2cpp_field_static_set_value"@, "bWETBqDYXSG"@),
        translates("il2cpp_field_set_value_object"@, "EZWtZRckXge"@),
        translates("il2cpp_field_is_literal"@, "ZpVlhnPyPjF"@),
        translates("il2cpp_gc_collect"@, "cxFieV_KvfU"@),
        translates("il2cpp_gc_collect_a_little"@, "FLnvWMirTvD"@),
        translates("il2cpp_gc_start_incremental_collection"@, "WsXbVfkwBFl"@),
        translates("il2cpp_gc_disable"@, "OrADuiKfRaV"@),
        translates("il2cpp_gc_enable"@, "OnAc_HRKlnn"@),
        translates("il2cpp_gc_is_disabled"@, "CGhT_qkYMhz"@),
        translates("il2cpp_gc_set_mode"@, "knvVyiMUlFH"@),
        translates("il2cpp_gc_get_max_time_slice_ns"@, "xmHvAlsCgvg"@),
        translates("il2cpp_gc_set_max_time_slice_ns"@, "IAHkloIMjeA"@),
        translates("il2cpp_gc_is_incremental"@, "ezlpJ_GUuck"@),
        translates("il2cpp_gc_get_used_size"@, "_jtTAs_IieI"@),
        translates("il2cpp_gc_get_heap_size"@, "jlxgOdsyfel"@),
        translates("il2cpp_gc_wbarrier_set_field"@, "DDuUjGcKUaj"@),
        translates("il2cpp_gc_has_strict_wbarriers"@, "XIBLQ_EpJtY"@),
        translates("il2cpp_gc_set_external_allocation_tracker"@, "YMqyW_Qt_Ld"@),
        translates("il2cpp_gc_set_external_wbarrier_tracker"@, "yG_WSutBToN"@),
        translates("il2cpp_gc_foreach_heap"@, "dNQnXjbmJKE"@),
        translates("il2cpp_stop_gc_world"@, "mIgMYhkAJMu"@),
        translates("il2cpp_start_gc_world"@, "pqnyVuh_ujd"@),
        translates("il2cpp_gc_alloc_fixed"@, "iVJSVIQCwWl"@),
        translates("il2cpp_gc_free_fixed"@, "xvhyUdIbVgy"@),
        translates("il2cpp_gchandle_new"@, "HRWlelkrVPt"@),
        translates("il2cpp_gchandle_new_weakref"@, "mZCAEcHuXyK"@),
        translates("il2cpp_gchandle_get_target"@, "TxCTtfvbDXh"@),
        translates("il2cpp_gchandle_free"@, "bETTzCiChhf"@),
        translates("il2cpp_gchandle_foreach_get_target"@, "OhgKQzlOETr"@),
        translates("il2cpp_object_header_size"@, "HJPxFieAabM"@),
        translates("il2cpp_array_object_header_size"@, "KrZKSmKtPJy"@),
        translates("il2cpp_offset_of_array_length_in_array_object_header"@, "ipNioOb_TTJ"@),
        translates("il2cpp_offset_of_array_bounds_in_array_object_header"@, "OpdiQkwodGd"@),
        translates("il2cpp_allocation_granularity"@, "jDHAPfbJGb_"@),
        translates("il2cpp_unity_liveness_allocate_struct"@, "YxvMvG_EOgK"@),
        translates("il2cpp_unity_liveness_calculation_from_root"@, "fxW_ygbYUpI"@),
        translates("il2cpp_unity_liveness_calculation_from_statics"@, "cmnrTHTRjeg"@),
        translates("il2cpp_unity_liveness_finalize"@, "ckudBVjX_tc"@),
        translates("il2cpp_unity_liveness_free_struct"@, "rQ_xDeHwdph"@),
        translates("il2cpp_method_get_return_type"@, "iOGphJxpUYi"@),
        translates("il2cpp_method_get_declaring_type"@, "SEwCkKakqHn"@),
        translates("il2cpp_method_get_name"@, "jgmSLpUuObu"@),
        translates("il2cpp_method_get_from_reflection"@, "bY_ngrNPSBp"@),
        translates("il2cpp_method_get_object"@, "uJokkJUjpKT"@),
        translates("il2cpp_method_is_generic"@, "RaDdigmblJd"@),
        translates("il2cpp_method_is_inflated"@, "MHOEcxWMXnX"@),
        translates("il2cpp_method_is_instance"@, "FYYVhKttIeM"@),
        translates("il2cpp_method_get_param_count"@, "SSrrPJtgRsy"@),
        translates("il2cpp_method_get_param"@, "OiCJwDuUwiM"@),
        translates("il2cpp_method_get_class"@, "gOZrNrFqRag"@),
        translates("il2cpp_method_has_attribute"@, "ZXROjjfaFd_"@),
        translates("il2cpp_method_get_flags"@, "niJNnKvNPvP"@),
        translates("il2cpp_method_get_token"@, "YMPcFDDspTK"@),
        translates("il2cpp_method_get_param_name"@, "TH_aVezXhJW"@),
        translates("il2cpp_property_get_flags"@, "MIEDlUbeuMx"@),
        translates("il2cpp_property_get_get_method"@, "CStyEE_NTSO"@),
        translates("il2cpp_property_get_set_method"@, "ErevOpxaNmP"@),
        translates("il2cpp_property_get_name"@, "ZQdUTOLZwVf"@),
        translates("il2cpp_property_get_parent"@, "sbOVZuGEH_y"@),
        translates("il2cpp_object_get_class"@, "qbFQR_fYihi"@),
        translates("il2cpp_object_get_size"@, "dQqlXFwQrJp"@),
        translates("il2cpp_object_get_virtual_method"@, "uqHFVbHaEcE"@),
        translates("il2cpp_object_new"@, "WCEoPQXKscc"@),
        translates("il2cpp_object_unbox"@, "syjaQBHbEba"@),
        translates("il2cpp_value_box"@, "NrgBtNRZraW"@),
        translates("il2cpp_monitor_enter"@, "awVxxaDkin_"@),
        translates("il2cpp_monitor_try_enter"@, "BcAaeBubdxr"@),
        translates("il2cpp_monitor_exit"@, "CKZFssaXtSR"@),
        translates("il2cpp_monitor_pulse"@, "BuJvkFvGnJJ"@),
        translates("il2cpp_monitor_pulse_all"@, "XSZeuqqCyAD"@),
        translates("il2cpp_monitor_wait"@, "nNNrsaoljaS"@),
        translates("il2cpp_monitor_try_wait"@, "mDSBbarFRGX"@),
        translates("il2cpp_runtime_invoke"@, "KsaFALsaHZl"@),
        translates("il2cpp_runtime_invoke_convert_args"@, "CcKieJOuNhD"@),
        translates("il2cpp_runtime_class_init"@, "HpawpbBmsnf"@),
        translates("il2cpp_runtime_object_init"@, "JEyEEDZogZe"@),
        translates("il2cpp_runtime_object_init_exception"@, "kFJQOElRJQz"@),
        translates("il2cpp_runtime_unhandled_exception_policy_set"@, "yuiRVqneHRq"@),
        translates("il2cpp_string_length"@, "DDuIaqSaJPb"@),
        translates("il2cpp_string_chars"@, "CAqjfDvGfOU"@),
        translates("il2cpp_string_new"@, "moZkrEOxnod"@),
        translates("il2cpp_string_new_len"@, "HiNmwaRQnUU"@),
        translates("il2cpp_string_new_utf16"@, "FQBIXIelhkZ"@),
        translates("il2cpp_string_new_wrapper"@, "sodVkROQWPR"@),
        translates("il2cpp_string_intern"@, "browFOTyQoT"@),
        translates("il2cpp_string_is_interned"@, "TmLQdbMHyHl"@),
        translates("il2cpp_thread_current"@, "XHlseHzpXli"@),
        translates("il2cpp_thread_attach"@, "yXKCkTHabfE"@),
        translates("il2cpp_thread_detach"@, "mUkuUnAcYiz"@),
        translates("il2cpp_thread_get_all_attached_threads"@, "rpORpEUDUUG"@),
        translates("il2cpp_is_vm_thread"@, "YTwnbYaBvtF"@),
        translates("il2cpp_current_thread_walk_frame_stack"@, "_kIiiFONOWj"@),
        translates("il2cpp_thread_walk_frame_stack"@, "txCdvPkSQ_U"@),
        translates("il2cpp_current_thread_get_top_frame"@, "aBVnkQmVagn"@),
        translates("il2cpp_thread_get_top_frame"@, "QfgAeisWpKk"@),
        translates("il2cpp_current_thread_get_frame_at"@, "ljruylFjhzQ"@),
        translates("il2cpp_thread_get_frame_at"@, "vfdtQi_BLnN"@),
        translates("il2cpp_current_thread_get_stack_depth"@, "_jfwrZMaxrS"@),
        translates("il2cpp_thread_get_stack_depth"@, "zxvFVDsgBzv"@),
        translates("il2cpp_override_stack_backtrace"@, "AgtoKcmHcDU"@),
        translates("il2cpp_type_get_object"@, "tRAcfCA_cJ_"@),
        translates("il2cpp_type_get_type"@, "YqifqTyuPPh"@),
        translates("il2cpp_type_get_class_or_element_class"@, "T__hQLBTfcK"@),
        translates("il2cpp_type_get_name"@, "hLEJNjZDdWu"@),
        translates("il2cpp_type_is_byref"@, "CLNqWpxdFVp"@),
        translates("il2cpp_type_get_attrs"@, "Uz_cHOJRUgo"@),
        translates("il2cpp_type_equals"@, "AridOgtMmI_"@),
        translates("il2cpp_type_get_assembly_qualified_name"@, "rrU_vIEwXbL"@),
        translates("il2cpp_type_get_reflection_name"@, "snWGrBGxadY"@),
        translates("il2cpp_type_is_static"@, "ffYPiNKgTWN"@),
        translates("il2cpp_type_is_pointer_type"@, "BgeV_bMfWIG"@),
        translates("il2cpp_image_get_assembly"@, "BNuYOmYhPYR"@),
        translates("il2cpp_image_get_name"@, "ikzAkyTEACE"@),
        translates("il2cpp_image_get_filename"@, "oZQRiHguhsf"@),
        translates("il2cpp_image_get_entry_point"@, "btgtJbGbhiv"@),
        translates("il2cpp_image_get_class_count"@, "CQzpQfpTRri"@),
        translates("il2cpp_image_get_class"@, "zUdXVkYrdqv"@),
        translates("il2cpp_capture_memory_snapshot"@, "mplYajYvgG_"@),
        translates("il2cpp_free_captured_memory_snapshot"@, "EFaaD_TxFmT"@),
        translates("il2cpp_set_find_plugin_callback"@, "mpxpzMXGXjG"@),
        translates("il2cpp_register_log_callback"@, "oHdI_cT_Dzm"@),
        translates("il2cpp_debugger_set_agent_options"@, "yTOgoQPzSCr"@),
        translates("il2cpp_is_debugger_attached"@, "hJkADbjlltQ"@),
        translates("il2cpp_register_debugger_agent_transport"@, "hKyInMXWsOU"@),
        translates("il2cpp_debug_get_method_info"@, "FqpgSyKjrdo"@),
        translates("il2cpp_unity_install_unitytls_interface"@, "JigYUjFcHix"@),
        translates("il2cpp_custom_attrs_from_class"@, "wDJQiJNSxdU"@),
        translates("il2cpp_custom_attrs_from_method"@, "hdgWuNBjZHE"@),
        translates("il2cpp_custom_attrs_from_field"@, "TSNtIHFohaO"@),
        translates("il2cpp_custom_attrs_get_attr"@, "jtFcNDldAcC"@),
        translates("il2cpp_custom_attrs_has_attr"@, "iFJnoOxafey"@),
        translates("il2cpp_custom_attrs_construct"@, "KPoSbzPCuBP"@),
        translates("il2cpp_custom_attrs_free"@, "YMpwqonKaMS"@),
        translates("il2cpp_class_set_userdata"@, "IN_yUMndXZh"@),
        translates("il2cpp_class_get_userdata_offset"@, "iDJFVOADMyw"@),
        translates("il2cpp_set_default_thread_affinity"@, "ygXP_vcjIjp"@),
        translates("il2cpp_unity_set_android_network_up_state_func"@, "vq_ROHDlwlL"@),
{
    lemma_translations_0_20();
    lemma_translations_20_40();
    lemma_translations_40_60();
    lemma_translations_60_80();
    lemma_translations_80_100();
    lemma_translations_100_120();
    lemma_translations_120_140();
    lemma_translations_140_160();
    lemma_translations_160_180();
    lemma_translations_180_200();
    lemma_translations_200_220();
    lemma_translations_220_234();
}

} // verus!
