//! Sandbox descriptors: what a sandbox is made of, read from the `qemu`
//! section of its descriptor file.

use crate::text::to_ascii_lowercase;
use crate::text::ascii_lower;
use crate::text::opt_text;
use vstd::prelude::*;
use vstd::string::*;

verus! {

/// A named execution profile.
#[derive(Debug, PartialEq, Eq)]
pub struct Sandbox {
    pub name: String,
    pub arch: String,
    pub kernel: String,
    pub distribution: String,
}

/// The characters of a sandbox's four fields.
pub struct SandboxView {
    pub name: Seq<char>,
    pub arch: Seq<char>,
    pub kernel: Seq<char>,
    pub distribution: Seq<char>,
}

impl View for Sandbox {
    type V = SandboxView;

    open spec fn view(&self) -> SandboxView {
        SandboxView {
            name: self.name@,
            arch: self.arch@,
            kernel: self.kernel@,
            distribution: self.distribution@,
        }
    }
}

impl Clone for Sandbox {
    fn clone(&self) -> (r: Sandbox)
        ensures
            r == *self,
    {
        Sandbox {
            name: self.name.clone(),
            arch: self.arch.clone(),
            kernel: self.kernel.clone(),
            distribution: self.distribution.clone(),
        }
    }
}

/// The three texts of the `qemu` section of a descriptor, each absent
/// where the key is missing or its value is no string.
#[derive(Debug, PartialEq, Eq)]
pub struct QemuSection {
    pub distribution: Option<String>,
    pub arch: Option<String>,
    pub kernel: Option<String>,
}

/// The characters of the texts of a `qemu` section.
pub struct QemuView {
    pub distribution: Option<Seq<char>>,
    pub arch: Option<Seq<char>>,
    pub kernel: Option<Seq<char>>,
}

impl View for QemuSection {
    type V = QemuView;

    open spec fn view(&self) -> QemuView {
        QemuView {
            distribution: opt_text(self.distribution),
            arch: opt_text(self.arch),
            kernel: opt_text(self.kernel),
        }
    }
}

/// Why a descriptor gives no sandbox.
#[derive(Debug, PartialEq, Eq)]
pub enum SandboxError {
    /// The descriptor is no YAML document; the parser's message.
    Yaml(String),
    MissingQemu,
    MissingDistribution,
    EmptyDistribution,
    MissingArch,
    EmptyArch,
    MissingKernel,
    EmptyKernel,
}

impl SandboxError {
    /// The text of the error.
    pub open spec fn text(&self) -> Seq<char> {
        match self {
            SandboxError::Yaml(m) => m@,
            SandboxError::MissingQemu => "missing qemu key in sandbox config"@,
            SandboxError::MissingDistribution => "missing distribution information in config"@,
            SandboxError::EmptyDistribution => "distribution field isn't allowed to be empty"@,
            SandboxError::MissingArch => "missing architecture information in config"@,
            SandboxError::EmptyArch => "arch field isn't allowed to be empty"@,
            SandboxError::MissingKernel => "missing kernel information in config"@,
            SandboxError::EmptyKernel => "kernel field isn't allowed to be empty"@,
        }
    }

    pub fn to_string(&self) -> (r: String)
        ensures
            r@ == self.text(),
    {
        match self {
            SandboxError::Yaml(m) => m.clone(),
            SandboxError::MissingQemu => String::from_str("missing qemu key in sandbox config"),
            SandboxError::MissingDistribution => String::from_str(
                "missing distribution information in config",
            ),
            SandboxError::EmptyDistribution => String::from_str(
                "distribution field isn't allowed to be empty",
            ),
            SandboxError::MissingArch => String::from_str(
                "missing architecture information in config",
            ),
            SandboxError::EmptyArch => String::from_str("arch field isn't allowed to be empty"),
            SandboxError::MissingKernel => String::from_str("missing kernel information in config"),
            SandboxError::EmptyKernel => String::from_str("kernel field isn't allowed to be empty"),
        }
    }
}

/// The message of the YAML parser for a document that it rejects; `None`
/// for a document that it reads.
pub uninterp spec fn yaml_error(doc: Seq<u8>) -> Option<Seq<char>>;

/// Whether the document, read as YAML, is a mapping that holds the key.
pub uninterp spec fn yaml_has_section(doc: Seq<u8>, section: Seq<char>) -> bool;

/// The string found in the document under the key of the section; `None`
/// where the section has no such key or its value is no string.
pub uninterp spec fn yaml_lookup(doc: Seq<u8>, section: Seq<char>, key: Seq<char>) -> Option<
    Seq<char>,
>;

/// `serde_yaml::from_slice` into a `Value`, then `Value::get` and
/// `Value::as_str`: the parser's message where the document is rejected;
/// else nothing where it has no such section; else the strings under the
/// three keys of the section.
#[verifier::external_body]
fn yaml_section(doc: &[u8], section: &str, distribution: &str, arch: &str, kernel: &str) -> (r:
    Result<Option<QemuSection>, String>)
    ensures
        r is Err <==> yaml_error(doc@) is Some,
        r matches Err(m) ==> yaml_error(doc@) == Some(m@),
        r matches Ok(found) ==> (found is Some <==> yaml_has_section(doc@, section@)),
        r matches Ok(Some(q)) ==> q@ == (QemuView {
            distribution: yaml_lookup(doc@, section@, distribution@),
            arch: yaml_lookup(doc@, section@, arch@),
            kernel: yaml_lookup(doc@, section@, kernel@),
        }),
{
    let value: serde_yaml::Value = serde_yaml::from_slice(doc).map_err(|e| e.to_string())?;
    Ok(
        value.get(section).map(
            |s|
                QemuSection {
                    distribution: s.get(distribution).and_then(|v| v.as_str()).map(String::from),
                    arch: s.get(arch).and_then(|v| v.as_str()).map(String::from),
                    kernel: s.get(kernel).and_then(|v| v.as_str()).map(String::from),
                },
        ),
    )
}

/// The `qemu` section of a document that the parser reads.
pub open spec fn yaml_qemu(doc: Seq<u8>) -> Option<QemuView> {
    if yaml_has_section(doc, "qemu"@) {
        Some(
            QemuView {
                distribution: yaml_lookup(doc, "qemu"@, "distribution"@),
                arch: yaml_lookup(doc, "qemu"@, "arch"@),
                kernel: yaml_lookup(doc, "qemu"@, "kernel"@),
            },
        )
    } else {
        None
    }
}

/// The sandbox that a name and a `qemu` section give: the three texts are
/// required and may not be empty; they are kept in lower case, the name as
/// it is. The first of the requirements that fails, in the order
/// distribution, arch, kernel, is the error.
pub open spec fn sandbox_of(name: Seq<char>, section: Option<QemuView>) -> Result<
    SandboxView,
    SandboxError,
> {
    match section {
        None => Err(SandboxError::MissingQemu),
        Some(q) => match q.distribution {
            None => Err(SandboxError::MissingDistribution),
            Some(d) => if d.len() == 0 {
                Err(SandboxError::EmptyDistribution)
            } else {
                match q.arch {
                    None => Err(SandboxError::MissingArch),
                    Some(a) => if a.len() == 0 {
                        Err(SandboxError::EmptyArch)
                    } else {
                        match q.kernel {
                            None => Err(SandboxError::MissingKernel),
                            Some(k) => if k.len() == 0 {
                                Err(SandboxError::EmptyKernel)
                            } else {
                                Ok(
                                    SandboxView {
                                        name,
                                        arch: ascii_lower(a),
                                        kernel: ascii_lower(k),
                                        distribution: ascii_lower(d),
                                    },
                                )
                            },
                        }
                    },
                }
            },
        },
    }
}

impl Sandbox {
    /// The sandbox of a name and the `qemu` section of its descriptor.
    pub fn from_section(name: String, section: Option<QemuSection>) -> (r: Result<
        Sandbox,
        SandboxError,
    >)
        ensures
            r matches Ok(s) ==> sandbox_of(
                name@,
                match section {
                    Some(q) => Some(q@),
                    None => None,
                },
            ) == Ok::<SandboxView, SandboxError>(s@),
            r matches Err(e) ==> sandbox_of(
                name@,
                match section {
                    Some(q) => Some(q@),
                    None => None,
                },
            ) == Err::<SandboxView, SandboxError>(e),
    {
        let q = match section {
            Some(q) => q,
            None => { return Err(SandboxError::MissingQemu); },
        };
        let distribution = match q.distribution {
            Some(d) => d,
            None => { return Err(SandboxError::MissingDistribution); },
        };
        if distribution.as_str().is_empty() {
            return Err(SandboxError::EmptyDistribution);
        }
        let arch = match q.arch {
            Some(a) => a,
            None => { return Err(SandboxError::MissingArch); },
        };
        if arch.as_str().is_empty() {
            return Err(SandboxError::EmptyArch);
        }
        let kernel = match q.kernel {
            Some(k) => k,
            None => { return Err(SandboxError::MissingKernel); },
        };
        if kernel.as_str().is_empty() {
            return Err(SandboxError::EmptyKernel);
        }
        Ok(
            Sandbox {
                name,
                arch: to_ascii_lowercase(arch.as_str()),
                kernel: to_ascii_lowercase(kernel.as_str()),
                distribution: to_ascii_lowercase(distribution.as_str()),
            },
        )
    }

    /// Reads the descriptor of the sandbox of that name from the bytes of
    /// its file.
    pub fn from_yaml_with_name(name: String, doc: &[u8]) -> (r: Result<Sandbox, SandboxError>)
        ensures
            match yaml_error(doc@) {
                Some(m) => r matches Err(SandboxError::Yaml(t)) && t@ == m,
                None => match r {
                    Ok(s) => sandbox_of(name@, yaml_qemu(doc@)) == Ok::<SandboxView, SandboxError>(
                        s@,
                    ),
                    Err(e) => sandbox_of(name@, yaml_qemu(doc@)) == Err::<
                        SandboxView,
                        SandboxError,
                    >(e),
                },
            },
    {
        match yaml_section(doc, "qemu", "distribution", "arch", "kernel") {
            Err(m) => Err(SandboxError::Yaml(m)),
            Ok(section) => Sandbox::from_section(name, section),
        }
    }
}

} // verus!
