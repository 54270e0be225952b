//! The configuration of the service, the layout of its data directory and
//! the catalog of its sandboxes.

use crate::analyzer::Analysis;
use crate::ident::format_uuid;
use crate::ident::uuid_text;
use crate::sandbox::sandbox_of;
use crate::sandbox::yaml_error;
use crate::sandbox::yaml_qemu;
use crate::sandbox::Sandbox;
use crate::sandbox::SandboxError;
use crate::sandbox::SandboxView;
use crate::text::join_path;
use crate::text::joined;
use crate::text::str_eq;
use vstd::prelude::*;
use vstd::string::*;

verus! {

/// A configured sandbox: its name and the path of its descriptor file.
#[derive(Debug, PartialEq, Eq)]
pub struct SandboxEntry {
    pub name: String,
    pub path: String,
}

impl Clone for SandboxEntry {
    fn clone(&self) -> (r: SandboxEntry)
        ensures
            r == *self,
    {
        SandboxEntry { name: self.name.clone(), path: self.path.clone() }
    }
}

/// The configuration of the service.
#[derive(Debug, PartialEq, Eq)]
pub struct Config {
    /// The location of the store.
    pub database: String,
    /// The executor binary.
    pub kunai_sandbox_exe: String,
    /// The configured sandboxes; no name occurs twice.
    pub sandboxes_config: Vec<SandboxEntry>,
    /// The fallback sandbox, listed first.
    pub default_sandbox_name: String,
    /// The root of the on-disk state.
    pub data_dir: String,
    /// The cap on queued analyses.
    pub max_queue: usize,
    /// The cap on running analyses.
    pub max_running: usize,
    pub analysis_duration_sec: u64,
    pub analysis_timeout_sec: u64,
    /// The catalog, filled when the descriptors are loaded.
    pub sandboxes: Vec<Sandbox>,
}

/// Whether one of the entries has that name.
pub open spec fn has_entry(entries: Seq<SandboxEntry>, name: Seq<char>) -> bool {
    exists|i: int| 0 <= i < entries.len() && (#[trigger] entries[i]).name@ == name
}

/// No two entries have the same name.
pub open spec fn distinct_names(entries: Seq<SandboxEntry>) -> bool {
    forall|i: int, j: int|
        0 <= i < j < entries.len() ==> (#[trigger] entries[i]).name@ != (
        #[trigger] entries[j]).name@
}

/// Why a configuration gives no catalog.
#[derive(Debug, PartialEq, Eq)]
pub enum ConfigError {
    /// A sandbox name is configured twice.
    DuplicateName,
    /// The default sandbox is not among the configured ones.
    DefaultNotConfigured,
    /// The number of descriptor files is not that of the sandboxes.
    FileCountMismatch,
    /// A descriptor file could not be opened; the reason.
    OpenFailed(String),
    /// A descriptor gives no sandbox.
    Descriptor(SandboxError),
}

impl ConfigError {
    /// The text of the error.
    pub open spec fn text(&self) -> Seq<char> {
        match self {
            ConfigError::DuplicateName => "a sandbox name is configured twice"@,
            ConfigError::DefaultNotConfigured =>
                "default sandbox name must be one of the configured sandboxes"@,
            ConfigError::FileCountMismatch =>
                "one descriptor file is needed for each configured sandbox"@,
            ConfigError::OpenFailed(m) => "failed to open sandbox configuration file: "@ + m@,
            ConfigError::Descriptor(e) => "failed to retrieve sandbox information from config: "@
                + e.text(),
        }
    }

    pub fn to_string(&self) -> (r: String)
        ensures
            r@ == self.text(),
    {
        match self {
            ConfigError::DuplicateName => String::from_str("a sandbox name is configured twice"),
            ConfigError::DefaultNotConfigured => String::from_str(
                "default sandbox name must be one of the configured sandboxes",
            ),
            ConfigError::FileCountMismatch => String::from_str(
                "one descriptor file is needed for each configured sandbox",
            ),
            ConfigError::OpenFailed(m) => String::from_str(
                "failed to open sandbox configuration file: ",
            ).concat(m.as_str()),
            ConfigError::Descriptor(e) => {
                let inner = e.to_string();
                String::from_str("failed to retrieve sandbox information from config: ").concat(
                    inner.as_str(),
                )
            },
        }
    }
}

/// The sandbox that a descriptor file gives under a name; `None` where the
/// file could not be opened, is no YAML or lacks a required text.
pub open spec fn descriptor_sandbox(name: Seq<char>, content: Result<Vec<u8>, String>) -> Option<
    SandboxView,
> {
    match content {
        Err(_) => None,
        Ok(doc) => if yaml_error(doc@) is Some {
            None
        } else {
            match sandbox_of(name, yaml_qemu(doc@)) {
                Ok(s) => Some(s),
                Err(_) => None,
            }
        },
    }
}

/// Whether `e` is the error of a descriptor file that gives no sandbox.
pub open spec fn descriptor_failure(
    name: Seq<char>,
    content: Result<Vec<u8>, String>,
    e: ConfigError,
) -> bool {
    match content {
        Err(m) => e matches ConfigError::OpenFailed(t) && t@ == m@,
        Ok(doc) => e matches ConfigError::Descriptor(se) && match yaml_error(doc@) {
            Some(m) => se matches SandboxError::Yaml(t) && t@ == m,
            None => sandbox_of(name, yaml_qemu(doc@)) == Err::<SandboxView, SandboxError>(se),
        },
    }
}

impl Config {
    /// Whether a sandbox of that name is configured.
    pub open spec fn has_sandbox(&self, name: Seq<char>) -> bool {
        has_entry(self.sandboxes_config@, name)
    }

    /// The name that a request resolves to: the requested name where it is
    /// configured, the default where it is unknown or absent.
    pub open spec fn resolved(&self, requested: Option<Seq<char>>) -> Seq<char> {
        match requested {
            Some(n) => if self.has_sandbox(n) {
                n
            } else {
                self.default_sandbox_name@
            },
            None => self.default_sandbox_name@,
        }
    }

    /// The configuration is usable: no sandbox name occurs twice, the
    /// default is configured, and the catalog holds one sandbox for each
    /// entry, that of the default first.
    pub open spec fn wf(&self) -> bool {
        &&& distinct_names(self.sandboxes_config@)
        &&& self.has_sandbox(self.default_sandbox_name@)
        &&& self.sandboxes@.len() == self.sandboxes_config@.len()
        &&& self.sandboxes@[0].name@ == self.default_sandbox_name@
        &&& forall|i: int|
            0 <= i < self.sandboxes_config@.len() ==> self.in_catalog(
                (#[trigger] self.sandboxes_config@[i]).name@,
            )
    }

    /// Whether the catalog holds a sandbox of that name.
    pub open spec fn in_catalog(&self, name: Seq<char>) -> bool {
        exists|j: int| 0 <= j < self.sandboxes@.len() && (#[trigger] self.sandboxes@[j]).name@ == name
    }

    /// The place of the default sandbox among the entries.
    pub open spec fn default_index(&self) -> int {
        choose|i: int|
            0 <= i < self.sandboxes_config@.len() && (#[trigger] self.sandboxes_config@[i]).name@
                == self.default_sandbox_name@
    }

    /// The entries in the order in which their descriptors are loaded:
    /// the default first, then the others as they are configured.
    pub open spec fn load_order(&self) -> Seq<SandboxEntry> {
        seq![self.sandboxes_config@[self.default_index()]] + self.sandboxes_config@.remove(
            self.default_index(),
        )
    }

    /// Whether no sandbox name is configured twice.
    pub fn names_distinct(&self) -> (r: bool)
        ensures
            r == distinct_names(self.sandboxes_config@),
    {
        let n = self.sandboxes_config.len();
        let mut j: usize = 0;
        while j < n
            invariant
                j <= n,
                n == self.sandboxes_config@.len(),
                forall|a: int, b: int|
                    0 <= a < b < j ==> (#[trigger] self.sandboxes_config@[a]).name@ != (
                    #[trigger] self.sandboxes_config@[b]).name@,
            decreases n - j,
        {
            let mut i: usize = 0;
            while i < j
                invariant
                    i <= j < n,
                    n == self.sandboxes_config@.len(),
                    forall|a: int|
                        0 <= a < i ==> (#[trigger] self.sandboxes_config@[a]).name@
                            != self.sandboxes_config@[j as int].name@,
                decreases j - i,
            {
                if str_eq(
                    self.sandboxes_config[i].name.as_str(),
                    self.sandboxes_config[j].name.as_str(),
                ) {
                    return false;
                }
                i += 1;
            }
            j += 1;
        }
        true
    }

    /// The order in which the descriptors are to be loaded.
    pub fn sandbox_load_order(&self) -> (r: Result<Vec<SandboxEntry>, ConfigError>)
        ensures
            !distinct_names(self.sandboxes_config@) ==> r matches Err(ConfigError::DuplicateName),
            distinct_names(self.sandboxes_config@) && !self.has_sandbox(self.default_sandbox_name@)
                ==> r matches Err(ConfigError::DefaultNotConfigured),
            distinct_names(self.sandboxes_config@) && self.has_sandbox(self.default_sandbox_name@)
                ==> (r matches Ok(order) && order@ == self.load_order()),
    {
        if !self.names_distinct() {
            return Err(ConfigError::DuplicateName);
        }
        let at = match self.find_entry(self.default_sandbox_name.as_str()) {
            Some(at) => at,
            None => { return Err(ConfigError::DefaultNotConfigured); },
        };
        assert(self.default_index() == at);
        let n = self.sandboxes_config.len();
        let mut order: Vec<SandboxEntry> = Vec::new();
        order.push(self.sandboxes_config[at].clone());
        let mut i: usize = 0;
        while i < n
            invariant
                i <= n,
                at < n,
                n == self.sandboxes_config@.len(),
                order@ == seq![self.sandboxes_config@[at as int]] + (if i <= at {
                    self.sandboxes_config@.subrange(0, i as int)
                } else {
                    self.sandboxes_config@.subrange(0, i as int).remove(at as int)
                }),
            decreases n - i,
        {
            if i != at {
                order.push(self.sandboxes_config[i].clone());
            }
            i += 1;
        }
        assert(self.sandboxes_config@.subrange(0, n as int) =~= self.sandboxes_config@);
        Ok(order)
    }

    /// Every setting but the catalog is that of `other`.
    pub open spec fn same_settings(&self, other: Config) -> bool {
        &&& self.database == other.database
        &&& self.kunai_sandbox_exe == other.kunai_sandbox_exe
        &&& self.sandboxes_config == other.sandboxes_config
        &&& self.default_sandbox_name == other.default_sandbox_name
        &&& self.data_dir == other.data_dir
        &&& self.max_queue == other.max_queue
        &&& self.max_running == other.max_running
        &&& self.analysis_duration_sec == other.analysis_duration_sec
        &&& self.analysis_timeout_sec == other.analysis_timeout_sec
    }

    /// The first `k` descriptor files, taken in load order, each give a
    /// sandbox.
    pub open spec fn loaded_until(&self, contents: Seq<Result<Vec<u8>, String>>, k: int) -> bool {
        forall|i: int|
            0 <= i < k ==> descriptor_sandbox(self.load_order()[i].name@, #[trigger] contents[i])
                is Some
    }

    /// Fills the catalog from the contents of the descriptor files, given
    /// in load order: the file of the default sandbox first. The first
    /// file that gives no sandbox is the error.
    pub fn with_catalog(self, contents: &Vec<Result<Vec<u8>, String>>) -> (r: Result<
        Config,
        ConfigError,
    >)
        ensures
            !distinct_names(self.sandboxes_config@) ==> r matches Err(ConfigError::DuplicateName),
            distinct_names(self.sandboxes_config@) && !self.has_sandbox(self.default_sandbox_name@)
                ==> r matches Err(ConfigError::DefaultNotConfigured),
            distinct_names(self.sandboxes_config@) && self.has_sandbox(self.default_sandbox_name@)
                && contents@.len() != self.sandboxes_config@.len() ==> r matches Err(
                ConfigError::FileCountMismatch,
            ),
            distinct_names(self.sandboxes_config@) && self.has_sandbox(self.default_sandbox_name@)
                && contents@.len() == self.sandboxes_config@.len() ==> match r {
                Ok(c) => {
                    &&& c.same_settings(self)
                    &&& c.wf()
                    &&& c.sandboxes@.len() == contents@.len()
                    &&& forall|i: int|
                        0 <= i < contents@.len() ==> descriptor_sandbox(
                            self.load_order()[i].name@,
                            #[trigger] contents@[i],
                        ) == Some(c.sandboxes@[i]@)
                },
                Err(e) => exists|k: int|
                    0 <= k < contents@.len() && self.loaded_until(contents@, k)
                        && descriptor_sandbox(self.load_order()[k].name@, #[trigger] contents@[k])
                        is None && descriptor_failure(self.load_order()[k].name@, contents@[k], e),
            },
    {
        let order = match self.sandbox_load_order() {
            Ok(order) => order,
            Err(e) => { return Err(e); },
        };
        let n = order.len();
        if contents.len() != n {
            return Err(ConfigError::FileCountMismatch);
        }
        let ghost at = self.default_index();
        let mut sandboxes: Vec<Sandbox> = Vec::new();
        let mut i: usize = 0;
        while i < n
            invariant
                i <= n,
                n == order@.len(),
                n == contents@.len(),
                order@ == self.load_order(),
                distinct_names(self.sandboxes_config@),
                self.has_sandbox(self.default_sandbox_name@),
                contents@.len() == self.sandboxes_config@.len(),
                sandboxes@.len() == i,
                forall|j: int|
                    0 <= j < i ==> descriptor_sandbox(order@[j].name@, #[trigger] contents@[j])
                        == Some(sandboxes@[j]@),
            decreases n - i,
        {
            let name = order[i].name.clone();
            match &contents[i] {
                Err(m) => {
                    let e = ConfigError::OpenFailed(m.clone());
                    assert(self.loaded_until(contents@, i as int));
                    assert(descriptor_failure(
                        self.load_order()[i as int].name@,
                        contents@[i as int],
                        e,
                    ));
                    return Err(e);
                },
                Ok(doc) => {
                    match Sandbox::from_yaml_with_name(name, doc.as_slice()) {
                        Ok(s) => {
                            sandboxes.push(s);
                        },
                        Err(se) => {
                            let e = ConfigError::Descriptor(se);
                            assert(self.loaded_until(contents@, i as int));
                            assert(descriptor_failure(
                                self.load_order()[i as int].name@,
                                contents@[i as int],
                                e,
                            ));
                            return Err(e);
                        },
                    }
                },
            }
            i += 1;
        }
        let ghost entries = self.sandboxes_config@;
        let mut c = self;
        c.sandboxes = sandboxes;
        proof {
            assert(c.sandboxes@[0]@ == descriptor_sandbox(order@[0].name@, contents@[0])->0);
            assert forall|k: int| 0 <= k < entries.len() implies c.in_catalog(
                (#[trigger] entries[k]).name@,
            ) by {
                let j = if k == at {
                    0
                } else if k < at {
                    k + 1
                } else {
                    k
                };
                assert(order@[j] == entries[k]);
                assert(descriptor_sandbox(order@[j].name@, contents@[j]) == Some(c.sandboxes@[j]@));
                assert(c.sandboxes@[j].name@ == entries[k].name@);
            }
        }
        Ok(c)
    }

    /// Whether the configuration is usable.
    pub fn is_valid(&self) -> (r: bool)
        ensures
            r == self.wf(),
    {
        if !self.names_distinct() {
            return false;
        }
        if self.find_entry(self.default_sandbox_name.as_str()).is_none() {
            return false;
        }
        let n = self.sandboxes_config.len();
        if self.sandboxes.len() != n {
            return false;
        }
        if !str_eq(self.sandboxes[0].name.as_str(), self.default_sandbox_name.as_str()) {
            return false;
        }
        let mut i: usize = 0;
        while i < n
            invariant
                i <= n,
                n == self.sandboxes_config@.len(),
                forall|k: int|
                    0 <= k < i ==> self.in_catalog((#[trigger] self.sandboxes_config@[k]).name@),
            decreases n - i,
        {
            if self.find_sandbox(self.sandboxes_config[i].name.as_str()).is_none() {
                return false;
            }
            i += 1;
        }
        true
    }

    /// The place of the first entry of that name.
    pub fn find_entry(&self, name: &str) -> (r: Option<usize>)
        ensures
            r is Some <==> self.has_sandbox(name@),
            r matches Some(i) ==> i < self.sandboxes_config@.len() && self.sandboxes_config@[i as int].name@
                == name@ && forall|j: int| 0 <= j < i ==> self.sandboxes_config@[j].name@ != name@,
    {
        let mut i: usize = 0;
        while i < self.sandboxes_config.len()
            invariant
                i <= self.sandboxes_config@.len(),
                forall|j: int| 0 <= j < i ==> self.sandboxes_config@[j].name@ != name@,
            decreases self.sandboxes_config@.len() - i,
        {
            if str_eq(self.sandboxes_config[i].name.as_str(), name) {
                return Some(i);
            }
            i += 1;
        }
        None
    }

    /// The place in the catalog of the first sandbox of that name.
    pub fn find_sandbox(&self, name: &str) -> (r: Option<usize>)
        ensures
            r is Some <==> self.in_catalog(name@),
            r matches Some(i) ==> i < self.sandboxes@.len() && self.sandboxes@[i as int].name@
                == name@ && forall|j: int| 0 <= j < i ==> self.sandboxes@[j].name@ != name@,
    {
        let mut i: usize = 0;
        while i < self.sandboxes.len()
            invariant
                i <= self.sandboxes@.len(),
                forall|j: int| 0 <= j < i ==> self.sandboxes@[j].name@ != name@,
            decreases self.sandboxes@.len() - i,
        {
            if str_eq(self.sandboxes[i].name.as_str(), name) {
                return Some(i);
            }
            i += 1;
        }
        None
    }

    /// Resolves the sandbox of a request: an unknown or absent name gives
    /// the default, without an error.
    pub fn resolve_sandbox_name(&self, requested: Option<&str>) -> (r: String)
        ensures
            r@ == self.resolved(
                match requested {
                    Some(n) => Some(n@),
                    None => None,
                },
            ),
    {
        match requested {
            Some(n) => {
                if self.find_entry(n).is_some() {
                    String::from_str(n)
                } else {
                    self.default_sandbox_name.clone()
                }
            },
            None => self.default_sandbox_name.clone(),
        }
    }

    /// `{data_dir}/analyses`
    pub open spec fn analyses_dir_text(&self) -> Seq<char> {
        joined(self.data_dir@, "analyses"@)
    }

    /// `{data_dir}/samples`
    pub open spec fn samples_dir_text(&self) -> Seq<char> {
        joined(self.data_dir@, "samples"@)
    }

    /// `{data_dir}/samples/{sample_uuid}`
    pub open spec fn sample_path_text(&self, sample_uuid: u128) -> Seq<char> {
        joined(self.samples_dir_text(), uuid_text(sample_uuid))
    }

    /// `{data_dir}/analyses/{analysis_uuid}`
    pub open spec fn analysis_dir_text(&self, analysis_uuid: u128) -> Seq<char> {
        joined(self.analyses_dir_text(), uuid_text(analysis_uuid))
    }

    /// `{data_dir}/analyses/{analysis_uuid}/analysis`
    pub open spec fn sandbox_analysis_dir_text(&self, analysis_uuid: u128) -> Seq<char> {
        joined(self.analysis_dir_text(analysis_uuid), "analysis"@)
    }

    pub fn analyses_dir(&self) -> (r: String)
        ensures
            r@ == self.analyses_dir_text(),
    {
        join_path(self.data_dir.as_str(), "analyses")
    }

    pub fn samples_dir(&self) -> (r: String)
        ensures
            r@ == self.samples_dir_text(),
    {
        join_path(self.data_dir.as_str(), "samples")
    }

    pub fn sample_path(&self, sample_uuid: u128) -> (r: String)
        ensures
            r@ == self.sample_path_text(sample_uuid),
    {
        let dir = self.samples_dir();
        let id = format_uuid(sample_uuid);
        join_path(dir.as_str(), id.as_str())
    }

    pub fn analysis_dir(&self, analysis_uuid: u128) -> (r: String)
        ensures
            r@ == self.analysis_dir_text(analysis_uuid),
    {
        let dir = self.analyses_dir();
        let id = format_uuid(analysis_uuid);
        join_path(dir.as_str(), id.as_str())
    }

    /// `{data_dir}/analyses/{uuid}/metadata.json`
    pub fn sample_metadata_json_file(&self, uuid: u128) -> (r: String)
        ensures
            r@ == joined(self.analysis_dir_text(uuid), Analysis::METADATA_FILENAME@),
    {
        let dir = self.analysis_dir(uuid);
        join_path(dir.as_str(), Analysis::METADATA_FILENAME)
    }

    /// `{data_dir}/analyses/{uuid}/sandbox.json`
    pub fn analysis_sandbox_json_file(&self, uuid: u128) -> (r: String)
        ensures
            r@ == joined(self.analysis_dir_text(uuid), Analysis::SANDBOX_FILENAME@),
    {
        let dir = self.analysis_dir(uuid);
        join_path(dir.as_str(), Analysis::SANDBOX_FILENAME)
    }

    pub fn sandbox_analysis_dir(&self, analysis_uuid: u128) -> (r: String)
        ensures
            r@ == self.sandbox_analysis_dir_text(analysis_uuid),
    {
        let dir = self.analysis_dir(analysis_uuid);
        join_path(dir.as_str(), "analysis")
    }

    /// `{data_dir}/analyses/{uuid}/analysis/dump.pcap`
    pub fn analysis_pcap_file(&self, analysis_uuid: u128) -> (r: String)
        ensures
            r@ == joined(self.sandbox_analysis_dir_text(analysis_uuid), "dump.pcap"@),
    {
        let dir = self.sandbox_analysis_dir(analysis_uuid);
        join_path(dir.as_str(), "dump.pcap")
    }

    /// `{data_dir}/analyses/{uuid}/analysis/kunai.jsonl.gz`
    pub fn analysis_log_file(&self, analysis_uuid: u128) -> (r: String)
        ensures
            r@ == joined(self.sandbox_analysis_dir_text(analysis_uuid), "kunai.jsonl.gz"@),
    {
        let dir = self.sandbox_analysis_dir(analysis_uuid);
        join_path(dir.as_str(), "kunai.jsonl.gz")
    }

    /// `{data_dir}/analyses/{uuid}/analysis/graph.svg`
    pub fn analysis_graph_file(&self, analysis_uuid: u128) -> (r: String)
        ensures
            r@ == joined(self.sandbox_analysis_dir_text(analysis_uuid), "graph.svg"@),
    {
        let dir = self.sandbox_analysis_dir(analysis_uuid);
        join_path(dir.as_str(), "graph.svg")
    }

    /// `{data_dir}/analyses/{uuid}/analysis/misp-event.json`
    pub fn analysis_misp_event_file(&self, analysis_uuid: u128) -> (r: String)
        ensures
            r@ == joined(self.sandbox_analysis_dir_text(analysis_uuid), "misp-event.json"@),
    {
        let dir = self.sandbox_analysis_dir(analysis_uuid);
        join_path(dir.as_str(), "misp-event.json")
    }
}

impl Clone for Config {
    fn clone(&self) -> (c: Config)
        ensures
            c.database == self.database,
            c.kunai_sandbox_exe == self.kunai_sandbox_exe,
            c.sandboxes_config@ == self.sandboxes_config@,
            c.default_sandbox_name == self.default_sandbox_name,
            c.data_dir == self.data_dir,
            c.max_queue == self.max_queue,
            c.max_running == self.max_running,
            c.analysis_duration_sec == self.analysis_duration_sec,
            c.analysis_timeout_sec == self.analysis_timeout_sec,
            c.sandboxes@ == self.sandboxes@,
    {
        let mut entries: Vec<SandboxEntry> = Vec::new();
        let mut i: usize = 0;
        while i < self.sandboxes_config.len()
            invariant
                i <= self.sandboxes_config@.len(),
                entries@ == self.sandboxes_config@.subrange(0, i as int),
            decreases self.sandboxes_config@.len() - i,
        {
            entries.push(self.sandboxes_config[i].clone());
            assert(entries@ =~= self.sandboxes_config@.subrange(0, i + 1));
            i += 1;
        }
        assert(entries@ =~= self.sandboxes_config@);
        let mut sandboxes: Vec<Sandbox> = Vec::new();
        let mut j: usize = 0;
        while j < self.sandboxes.len()
            invariant
                j <= self.sandboxes@.len(),
                sandboxes@ == self.sandboxes@.subrange(0, j as int),
            decreases self.sandboxes@.len() - j,
        {
            sandboxes.push(self.sandboxes[j].clone());
            assert(sandboxes@ =~= self.sandboxes@.subrange(0, j + 1));
            j += 1;
        }
        assert(sandboxes@ =~= self.sandboxes@);
        Config {
            database: self.database.clone(),
            kunai_sandbox_exe: self.kunai_sandbox_exe.clone(),
            sandboxes_config: entries,
            default_sandbox_name: self.default_sandbox_name.clone(),
            data_dir: self.data_dir.clone(),
            max_queue: self.max_queue,
            max_running: self.max_running,
            analysis_duration_sec: self.analysis_duration_sec,
            analysis_timeout_sec: self.analysis_timeout_sec,
            sandboxes,
        }
    }
}

impl Default for Config {
    fn default() -> (c: Config)
        ensures
            c.max_queue == 16,
            c.max_running == 4,
            c.analysis_duration_sec == 60,
            c.analysis_timeout_sec == 600,
            c.sandboxes_config@.len() == 0,
            c.sandboxes@.len() == 0,
            c.database@.len() == 0,
            c.kunai_sandbox_exe@.len() == 0,
            c.default_sandbox_name@.len() == 0,
            c.data_dir@.len() == 0,
    {
        Config {
            database: String::new(),
            kunai_sandbox_exe: String::new(),
            sandboxes_config: Vec::new(),
            default_sandbox_name: String::new(),
            data_dir: String::new(),
            max_queue: 16,
            max_running: 4,
            analysis_duration_sec: 60,
            analysis_timeout_sec: 600,
            sandboxes: Vec::new(),
        }
    }
}

} // verus!
