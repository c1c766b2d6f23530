//! Custom CPU configuration: templates and feature overrides for the guest vCPUs.

use vstd::prelude::*;

verus! {

/// All the CPU feature configuration for CPUID and MSRs of a vCPU.
#[derive(Clone, Debug, PartialEq)]
pub struct CustomCpuConfiguration {
    /// File path of a full configuration set of architecture-general features.
    pub base_arch_features_template_path: String,
    /// File path of a full configuration set of "special" registers.
    pub base_special_features_template_path: String,
    /// CPU features to be configured for a vCPU.
    pub cpu_feature_overrides: Vec<CpuConfigurationAttribute>,
}

/// A CPU feature to enable or disable.
#[derive(Clone, Debug, PartialEq)]
pub struct CpuConfigurationAttribute {
    /// Symbolic name of the CPU feature.
    pub name: String,
    /// Whether to enable or disable the feature on a vCPU.
    pub is_enabled: bool,
}

/// Errors of configuring the CPU of a microVM.
#[derive(Debug, PartialEq)]
pub enum CpuConfigError {
    /// Unknown or undefined CPU feature name.
    UndefinedCpuFeatureName,
    /// CPU feature override not supported.
    UnsupportedCpuFeatureOverride(String),
}

/// How a CPU template file is read, by its extension.
#[derive(Clone, Copy, Debug, PartialEq, Eq)]
pub enum TemplateFormat {
    /// No extension: a binary template.
    Binary,
    /// A `json` extension (in any case): a JSON template.
    Json,
    /// Any other extension: not a template.
    Invalid,
}

/// The bytes of `json`.
pub open spec fn json_extension() -> Seq<u8> {
    seq![0x6au8, 0x73, 0x6f, 0x6e]
}

/// Two byte strings are equal up to ASCII case.
pub open spec fn same_ignoring_ascii_case(a: Seq<u8>, b: Seq<u8>) -> bool {
    crate::vmm_config::eq_ignore_ascii_case(a, b)
}

fn lower(b: u8) -> (r: u8)
    ensures
        r == crate::vmm_config::ascii_lower(b),
{
    if 65 <= b && b <= 90 {
        b + 32
    } else {
        b
    }
}

/// The format of a template file with extension `extension` (as bytes), if any.
pub fn template_format(extension: Option<&[u8]>) -> (r: TemplateFormat)
    ensures
        r == match extension {
            None => TemplateFormat::Binary,
            Some(e) => if same_ignoring_ascii_case(e@, json_extension()) {
                TemplateFormat::Json
            } else {
                TemplateFormat::Invalid
            },
        },
{
    match extension {
        None => TemplateFormat::Binary,
        Some(e) => {
            let json: [u8; 4] = [0x6au8, 0x73, 0x6f, 0x6e];
            assert(json@ == json_extension());
            if e.len() != 4 {
                return TemplateFormat::Invalid;
            }
            let mut i: usize = 0;
            while i < 4
                invariant
                    0 <= i <= 4,
                    extension == Some(e),
                    e@.len() == 4,
                    json@ == json_extension(),
                    forall|j: int| 0 <= j < i ==> crate::vmm_config::ascii_lower(#[trigger] e@[j])
                        == crate::vmm_config::ascii_lower(json@[j]),
                decreases 4 - i,
            {
                if lower(e[i]) != lower(json[i]) {
                    assert(!same_ignoring_ascii_case(e@, json_extension())) by {
                        assert(crate::vmm_config::ascii_lower(e@[i as int])
                            != crate::vmm_config::ascii_lower(json_extension()[i as int]));
                    }
                    return TemplateFormat::Invalid;
                }
                i = i + 1;
            }
            TemplateFormat::Json
        },
    }
}

} // verus!
