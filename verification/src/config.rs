//! Generator configuration: which optional features are active and where
//! the descriptor set is persisted, together with the entry points that
//! produce the per-service and per-package source text.

use vstd::prelude::*;

use crate::codegen::{
    GenError, GenErrorModel, deserializer_module_text, first_invalid_in, first_invalid_path_from,
    fragment_well_formed, functions_text_from, generic_module_inner, generic_module_text,
};
use crate::descriptor::{FileDescriptor, ServiceDescriptor};
use crate::extract::{all_enum_paths_from, package_bindings_from};
use crate::router::{ERROR_STRUCTS_TEXT, package_footer, service_router_text};

verus! {

/// The type attribute added to every generated message type so that it can
/// be read from and written to JSON.
pub const TYPE_SERDE_ATTRIBUTE: &'static str = "#[derive(serde::Serialize, serde::Deserialize)]";

/// The attribute text to hang on every generated type.
pub fn type_serde_attribute() -> (r: &'static str)
    ensures
        r@ == TYPE_SERDE_ATTRIBUTE@,
{
    TYPE_SERDE_ATTRIBUTE
}

/// The generation options: whether per-field string-enum codecs (and the
/// omission attributes that accompany them) are generated, and where the
/// raw descriptor set is persisted for runtime reflection use, if anywhere.
pub struct BridgeGenerator {
    pub enable_string_enums: bool,
    pub descriptor_set_path: Option<String>,
}

impl BridgeGenerator {
    /// A generator with every optional feature off.
    pub fn new() -> (r: Self)
        ensures
            !r.enable_string_enums,
            r.descriptor_set_path is None,
    {
        BridgeGenerator { enable_string_enums: false, descriptor_set_path: None }
    }

    /// Activate string-enum support: enum fields then accept both symbolic
    /// names and integers in JSON.
    pub fn with_string_enums(self) -> (r: Self)
        ensures
            r.enable_string_enums,
            r.descriptor_set_path == self.descriptor_set_path,
    {
        BridgeGenerator { enable_string_enums: true, ..self }
    }

    /// Set the path where the raw descriptor set is also persisted.
    pub fn file_descriptor_set_path(self, path: &str) -> (r: Self)
        ensures
            r.enable_string_enums == self.enable_string_enums,
            r.descriptor_set_path matches Some(p) && p@ == path@,
    {
        BridgeGenerator { descriptor_set_path: Some(path.to_owned()), ..self }
    }

    /// Whether generation needs the descriptor set loaded up front: it does
    /// when string enums are on or the set is to be persisted.
    pub fn needs_descriptor_set(&self) -> (r: bool)
        ensures
            r == (self.enable_string_enums || self.descriptor_set_path is Some),
    {
        self.enable_string_enums || matches!(self.descriptor_set_path, Some(_))
    }

    /// The router-construction source text for one service.
    pub fn generate(&self, service: &ServiceDescriptor) -> (r: String)
        ensures
            r@ == service_router_text(*service),
    {
        crate::router::generate_service_router(service)
    }

    /// The text appended once per package: the JSON error envelope and,
    /// with string enums on, the package's `enum_deserializer` module.
    pub fn finalize_package(&self, package: &str, files: &Vec<FileDescriptor>) -> (r: Result<
        String,
        GenError,
    >)
        ensures
            ({
                let bs = package_bindings_from(files@, package@, 0);
                match r {
                    Ok(t) => {
                        &&& (!(self.enable_string_enums && bs.len() > 0) ==> t@ == "\n"@
                            + ERROR_STRUCTS_TEXT@)
                        &&& (self.enable_string_enums && bs.len() > 0 ==> {
                            &&& first_invalid_path_from(bs, 0) is None
                            &&& fragment_well_formed(functions_text_from(bs, 0))
                            &&& t@ == "\n"@ + ERROR_STRUCTS_TEXT@ + "\n"@
                                + deserializer_module_text(bs)
                        })
                    },
                    Err(e) => {
                        &&& self.enable_string_enums
                        &&& bs.len() > 0
                        &&& match e@ {
                            GenErrorModel::InvalidEnumPath(p) => first_invalid_path_from(bs, 0)
                                == Some(p),
                            GenErrorModel::InvalidFragment => first_invalid_path_from(bs, 0)
                                is None && !fragment_well_formed(functions_text_from(bs, 0)),
                        }
                    },
                }
            }),
    {
        package_footer(files, package, self.enable_string_enums)
    }

    /// Wrap the options for the enum-specific configuration steps.
    pub fn build_enum_config(self) -> (r: EnumConfig)
        ensures
            r.generator == self,
    {
        EnumConfig::new(self)
    }
}

/// Configuration helper for the enum-related generation steps.
pub struct EnumConfig {
    pub generator: BridgeGenerator,
}

impl EnumConfig {
    /// Wrap a `BridgeGenerator`.
    pub fn new(generator: BridgeGenerator) -> (r: Self)
        ensures
            r.generator == generator,
    {
        EnumConfig { generator }
    }

    /// The package-wide enum listing module (the discarded shared-codec
    /// design, kept behind its own entry point).
    pub fn generate_enum_deserializer_code(&self, files: &Vec<FileDescriptor>) -> (r: Result<
        String,
        GenError,
    >)
        ensures
            ({
                let paths = all_enum_paths_from(files@, 0);
                match r {
                    Ok(t) => {
                        &&& first_invalid_in(paths, 0) is None
                        &&& fragment_well_formed(generic_module_inner(paths))
                        &&& t@ == generic_module_text(paths)
                    },
                    Err(e) => match e@ {
                        GenErrorModel::InvalidEnumPath(p) => first_invalid_in(paths, 0) == Some(
                            p,
                        ),
                        GenErrorModel::InvalidFragment => first_invalid_in(paths, 0) is None
                            && !fragment_well_formed(generic_module_inner(paths)),
                    },
                }
            }),
    {
        crate::codegen::generate_enum_deserializer_code(files)
    }
}

} // verus!
