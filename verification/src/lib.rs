//! Symbol name translation for the il2cpp runtime, and the decisions that
//! surround loading a native library and resolving a symbol in it.
pub mod exports;
pub mod libs;
pub mod loader;
pub mod text;
pub mod translations;
