//! The WebGPU execution provider: a key/value option builder whose entries
//! are handed to the engine when a session registers the provider.
//!
//! Options live in an ordered key/value list; setting a key that is already
//! present replaces its value in place, setting a fresh key appends it.
//! Everything here is plain data — the registration call itself is a
//! foreign call made outside the verified crate from the parts
//! [`ExecutionProviderOptions::to_parts`] hands out.

use vstd::prelude::*;
use vstd::string::StringExecFns;

use crate::text::{i64_to_string, spec_signed_decimal};

verus! {

/// One option entry's view: key and value.
pub open spec fn entry_view(e: (String, String)) -> (Seq<char>, Seq<char>) {
    (e.0@, e.1@)
}

/// The index of the first entry with key `key` at or after `from`, or
/// `entries.len()` if there is none.
pub open spec fn find_entry(
    entries: Seq<(Seq<char>, Seq<char>)>,
    key: Seq<char>,
    from: int,
) -> int
    recommends
        0 <= from <= entries.len(),
    decreases entries.len() - from,
{
    if from < 0 || from >= entries.len() {
        entries.len() as int
    } else if entries[from].0 == key {
        from
    } else {
        find_entry(entries, key, from + 1)
    }
}

/// The entry list after setting `key` to `value`: an existing key is
/// replaced in place, a fresh key is appended.
pub open spec fn spec_set(
    entries: Seq<(Seq<char>, Seq<char>)>,
    key: Seq<char>,
    value: Seq<char>,
) -> Seq<(Seq<char>, Seq<char>)> {
    let i = find_entry(entries, key, 0);
    if i == entries.len() {
        entries.push((key, value))
    } else {
        entries.update(i, (key, value))
    }
}

proof fn lemma_find_entry_is(
    entries: Seq<(Seq<char>, Seq<char>)>,
    key: Seq<char>,
    from: int,
    idx: int,
)
    requires
        0 <= from <= idx <= entries.len(),
        forall|k: int| from <= k < idx ==> (#[trigger] entries[k]).0 != key,
        idx < entries.len() ==> entries[idx].0 == key,
    ensures
        find_entry(entries, key, from) == idx,
    decreases idx - from,
{
    if from < idx {
        lemma_find_entry_is(entries, key, from + 1, idx);
    }
}

/// An ordered key/value option list for an execution provider.
#[derive(Debug)]
pub struct ExecutionProviderOptions {
    entries: Vec<(String, String)>,
}

impl ExecutionProviderOptions {
    /// The entries, as key/value views in order.
    pub closed spec fn spec_entries(&self) -> Seq<(Seq<char>, Seq<char>)> {
        self.entries@.map_values(|e: (String, String)| entry_view(e))
    }

    /// An empty option list.
    pub fn new() -> (r: ExecutionProviderOptions)
        ensures
            r.spec_entries() =~= Seq::<(Seq<char>, Seq<char>)>::empty(),
    {
        ExecutionProviderOptions { entries: Vec::new() }
    }

    /// Sets `key` to `value`: replaces the value of an existing key in
    /// place, appends a fresh key at the end.
    pub fn set(&mut self, key: &str, value: &str) -> (r: ())
        ensures
            final(self).spec_entries() =~= spec_set(old(self).spec_entries(), key@, value@),
    {
        let key_string = key.to_owned();
        let n = self.entries.len();
        let mut i: usize = 0;
        while i < n
            invariant
                i <= n,
                n == self.entries@.len(),
                key_string@ == key@,
                *self == *old(self),
                forall|k: int| 0 <= k < i ==> (#[trigger] old(self).spec_entries()[k]).0 != key@,
            decreases n - i,
        {
            if self.entries[i].0.eq(&key_string) {
                proof {
                    lemma_find_entry_is(old(self).spec_entries(), key@, 0, i as int);
                }
                self.entries[i] = (key.to_owned(), value.to_owned());
                proof {
                    assert(self.spec_entries() =~= old(self).spec_entries().update(
                        i as int,
                        (key@, value@),
                    ));
                }
                return ;
            }
            i = i + 1;
        }
        proof {
            lemma_find_entry_is(old(self).spec_entries(), key@, 0, n as int);
        }
        self.entries.push((key.to_owned(), value.to_owned()));
        proof {
            assert(self.spec_entries() =~= old(self).spec_entries().push((key@, value@)));
        }
    }

    /// Splits the entries into parallel key and value lists, the form the
    /// registration call consumes.
    pub fn to_parts(&self) -> (r: (Vec<String>, Vec<String>))
        ensures
            r.0@.len() == self.spec_entries().len(),
            r.1@.len() == self.spec_entries().len(),
            forall|i: int|
                0 <= i < self.spec_entries().len() ==> (#[trigger] r.0@[i])@
                    == self.spec_entries()[i].0 && r.1@[i]@ == self.spec_entries()[i].1,
    {
        let n = self.entries.len();
        let mut keys: Vec<String> = Vec::new();
        let mut values: Vec<String> = Vec::new();
        let mut i: usize = 0;
        while i < n
            invariant
                i <= n,
                n == self.entries@.len(),
                keys@.len() == i,
                values@.len() == i,
                forall|k: int|
                    0 <= k < i ==> (#[trigger] keys@[k])@ == self.spec_entries()[k].0
                        && values@[k]@ == self.spec_entries()[k].1,
            decreases n - i,
        {
            keys.push(self.entries[i].0.clone());
            values.push(self.entries[i].1.clone());
            proof {
                assert(self.spec_entries()[i as int] == entry_view(self.entries@[i as int]));
            }
            i = i + 1;
        }
        (keys, values)
    }
}

/// The preferred tensor memory layout.
#[derive(Clone, Copy, Debug, PartialEq, Eq, Structural)]
pub enum WebGPUPreferredLayout {
    NCHW,
    NHWC,
}

/// The option value a preferred layout denotes.
pub open spec fn spec_layout_name(v: WebGPUPreferredLayout) -> Seq<char> {
    match v {
        WebGPUPreferredLayout::NCHW => "NCHW"@,
        WebGPUPreferredLayout::NHWC => "NHWC"@,
    }
}

impl WebGPUPreferredLayout {
    /// The option value this layout denotes.
    pub fn as_str(&self) -> (r: &'static str)
        ensures
            r@ =~= spec_layout_name(*self),
    {
        match self {
            WebGPUPreferredLayout::NCHW => "NCHW",
            WebGPUPreferredLayout::NHWC => "NHWC",
        }
    }
}

/// The backend the Dawn WebGPU implementation should use.
#[derive(Clone, Copy, Debug, PartialEq, Eq, Structural)]
pub enum WebGPUDawnBackendType {
    Vulkan,
    D3D12,
}

/// The option value a Dawn backend denotes.
pub open spec fn spec_dawn_backend_name(v: WebGPUDawnBackendType) -> Seq<char> {
    match v {
        WebGPUDawnBackendType::Vulkan => "Vulkan"@,
        WebGPUDawnBackendType::D3D12 => "D3D12"@,
    }
}

impl WebGPUDawnBackendType {
    /// The option value this backend denotes.
    pub fn as_str(&self) -> (r: &'static str)
        ensures
            r@ =~= spec_dawn_backend_name(*self),
    {
        match self {
            WebGPUDawnBackendType::Vulkan => "Vulkan",
            WebGPUDawnBackendType::D3D12 => "D3D12",
        }
    }
}

/// How aggressively GPU buffers are cached.
#[derive(Clone, Copy, Debug, PartialEq, Eq, Structural)]
pub enum WebGPUBufferCacheMode {
    Disabled,
    LazyRelease,
    Simple,
    Bucket,
}

/// The option value a buffer cache mode denotes.
pub open spec fn spec_cache_mode_name(v: WebGPUBufferCacheMode) -> Seq<char> {
    match v {
        WebGPUBufferCacheMode::Disabled => "disabled"@,
        WebGPUBufferCacheMode::LazyRelease => "lazyRelease"@,
        WebGPUBufferCacheMode::Simple => "simple"@,
        WebGPUBufferCacheMode::Bucket => "bucket"@,
    }
}

impl WebGPUBufferCacheMode {
    /// The option value this cache mode denotes.
    pub fn as_str(&self) -> (r: &'static str)
        ensures
            r@ =~= spec_cache_mode_name(*self),
    {
        match self {
            WebGPUBufferCacheMode::Disabled => "disabled",
            WebGPUBufferCacheMode::LazyRelease => "lazyRelease",
            WebGPUBufferCacheMode::Simple => "simple",
            WebGPUBufferCacheMode::Bucket => "bucket",
        }
    }
}

/// How much validation the WebGPU stack performs.
#[derive(Clone, Copy, Debug, PartialEq, Eq, Structural)]
pub enum WebGPUValidationMode {
    Disabled,
    WgpuOnly,
    Basic,
    Full,
}

/// The option value a validation mode denotes.
pub open spec fn spec_validation_mode_name(v: WebGPUValidationMode) -> Seq<char> {
    match v {
        WebGPUValidationMode::Disabled => "disabled"@,
        WebGPUValidationMode::WgpuOnly => "wgpuOnly"@,
        WebGPUValidationMode::Basic => "basic"@,
        WebGPUValidationMode::Full => "full"@,
    }
}

impl WebGPUValidationMode {
    /// The option value this validation mode denotes.
    pub fn as_str(&self) -> (r: &'static str)
        ensures
            r@ =~= spec_validation_mode_name(*self),
    {
        match self {
            WebGPUValidationMode::Disabled => "disabled",
            WebGPUValidationMode::WgpuOnly => "wgpuOnly",
            WebGPUValidationMode::Basic => "basic",
            WebGPUValidationMode::Full => "full",
        }
    }
}

/// The option value a boolean switch denotes.
pub open spec fn spec_switch_name(enable: bool) -> Seq<char> {
    if enable {
        "1"@
    } else {
        "0"@
    }
}

/// The WebGPU execution provider builder: accumulates provider options and
/// is then built into a dispatchable registration.
#[derive(Debug)]
pub struct WebGPUExecutionProvider {
    options: ExecutionProviderOptions,
}

/// A provider ready to be registered with a session: its engine-facing name
/// and its assembled options.
#[derive(Debug)]
pub struct ExecutionProviderDispatch {
    name: String,
    options: ExecutionProviderOptions,
}

impl ExecutionProviderDispatch {
    /// The engine-facing provider name.
    pub closed spec fn spec_name(&self) -> Seq<char> {
        self.name@
    }

    /// The assembled option entries.
    pub closed spec fn spec_entries(&self) -> Seq<(Seq<char>, Seq<char>)> {
        self.options.spec_entries()
    }

    pub(crate) fn new(name: String, options: ExecutionProviderOptions) -> (r:
        ExecutionProviderDispatch)
        ensures
            r.spec_name() =~= name@,
            r.spec_entries() =~= options.spec_entries(),
    {
        ExecutionProviderDispatch { name, options }
    }

    /// The engine-facing provider name.
    pub fn name(&self) -> (r: &str)
        ensures
            r@ =~= self.spec_name(),
    {
        self.name.as_str()
    }

    /// The assembled options, as parallel key and value lists.
    pub fn to_parts(&self) -> (r: (Vec<String>, Vec<String>))
        ensures
            r.0@.len() == self.spec_entries().len(),
            r.1@.len() == self.spec_entries().len(),
            forall|i: int|
                0 <= i < self.spec_entries().len() ==> (#[trigger] r.0@[i])@
                    == self.spec_entries()[i].0 && r.1@[i]@ == self.spec_entries()[i].1,
    {
        self.options.to_parts()
    }
}

impl Default for WebGPUExecutionProvider {
    /// A provider with no options set.
    fn default() -> (r: WebGPUExecutionProvider)
        ensures
            r.spec_options() =~= Seq::<(Seq<char>, Seq<char>)>::empty(),
    {
        WebGPUExecutionProvider { options: ExecutionProviderOptions::new() }
    }
}

impl WebGPUExecutionProvider {
    /// The option entries accumulated so far.
    pub closed spec fn spec_options(&self) -> Seq<(Seq<char>, Seq<char>)> {
        self.options.spec_entries()
    }

    /// The engine-facing name of this provider.
    pub fn as_str(&self) -> (r: &'static str)
        ensures
            r@ =~= "WebGpuExecutionProvider"@,
    {
        "WebGpuExecutionProvider"
    }

    /// Sets the preferred tensor memory layout.
    pub fn with_preferred_layout(self, layout: WebGPUPreferredLayout) -> (r:
        WebGPUExecutionProvider)
        ensures
            r.spec_options() =~= spec_set(
                self.spec_options(),
                "WebGPU:preferredLayout"@,
                spec_layout_name(layout),
            ),
    {
        let mut this = self;
        this.options.set("WebGPU:preferredLayout", layout.as_str());
        this
    }

    /// Enables or disables graph capture.
    pub fn with_enable_graph_capture(self, enable: bool) -> (r: WebGPUExecutionProvider)
        ensures
            r.spec_options() =~= spec_set(
                self.spec_options(),
                "WebGPU:enableGraphCapture"@,
                spec_switch_name(enable),
            ),
    {
        let mut this = self;
        this.options.set("WebGPU:enableGraphCapture", if enable { "1" } else { "0" });
        this
    }

    /// Names the Dawn procedure table to load.
    pub fn with_dawn_proc_table(self, table: String) -> (r: WebGPUExecutionProvider)
        ensures
            r.spec_options() =~= spec_set(self.spec_options(), "WebGPU:dawnProcTable"@, table@),
    {
        let mut this = self;
        this.options.set("WebGPU:dawnProcTable", table.as_str());
        this
    }

    /// Selects the backend the Dawn WebGPU implementation should use.
    pub fn with_dawn_backend_type(self, backend_type: WebGPUDawnBackendType) -> (r:
        WebGPUExecutionProvider)
        ensures
            r.spec_options() =~= spec_set(
                self.spec_options(),
                "WebGPU:dawnBackendType"@,
                spec_dawn_backend_name(backend_type),
            ),
    {
        let mut this = self;
        this.options.set("WebGPU:dawnBackendType", backend_type.as_str());
        this
    }

    /// Selects the device ordinal to run on.
    pub fn with_device_id(self, id: i32) -> (r: WebGPUExecutionProvider)
        ensures
            r.spec_options() =~= spec_set(
                self.spec_options(),
                "WebGPU:deviceId"@,
                spec_signed_decimal(id as int),
            ),
    {
        let id_text = i64_to_string(id as i64);
        let mut this = self;
        this.options.set("WebGPU:deviceId", id_text.as_str());
        this
    }

    /// Sets the cache mode for storage buffers.
    pub fn with_storage_buffer_cache_mode(self, mode: WebGPUBufferCacheMode) -> (r:
        WebGPUExecutionProvider)
        ensures
            r.spec_options() =~= spec_set(
                self.spec_options(),
                "WebGPU:storageBufferCacheMode"@,
                spec_cache_mode_name(mode),
            ),
    {
        let mut this = self;
        this.options.set("WebGPU:storageBufferCacheMode", mode.as_str());
        this
    }

    /// Sets the cache mode for uniform buffers.
    pub fn with_uniform_buffer_cache_mode(self, mode: WebGPUBufferCacheMode) -> (r:
        WebGPUExecutionProvider)
        ensures
            r.spec_options() =~= spec_set(
                self.spec_options(),
                "WebGPU:uniformBufferCacheMode"@,
                spec_cache_mode_name(mode),
            ),
    {
        let mut this = self;
        this.options.set("WebGPU:uniformBufferCacheMode", mode.as_str());
        this
    }

    /// Sets the cache mode for query-resolve buffers.
    pub fn with_query_resolve_buffer_cache_mode(self, mode: WebGPUBufferCacheMode) -> (r:
        WebGPUExecutionProvider)
        ensures
            r.spec_options() =~= spec_set(
                self.spec_options(),
                "WebGPU:queryResolveBufferCacheMode"@,
                spec_cache_mode_name(mode),
            ),
    {
        let mut this = self;
        this.options.set("WebGPU:queryResolveBufferCacheMode", mode.as_str());
        this
    }

    /// Sets the cache mode for buffers with no more specific setting.
    pub fn with_default_buffer_cache_mode(self, mode: WebGPUBufferCacheMode) -> (r:
        WebGPUExecutionProvider)
        ensures
            r.spec_options() =~= spec_set(
                self.spec_options(),
                "WebGPU:defaultBufferCacheMode"@,
                spec_cache_mode_name(mode),
            ),
    {
        let mut this = self;
        this.options.set("WebGPU:defaultBufferCacheMode", mode.as_str());
        this
    }

    /// Sets how much validation the WebGPU stack performs.
    pub fn with_validation_mode(self, mode: WebGPUValidationMode) -> (r:
        WebGPUExecutionProvider)
        ensures
            r.spec_options() =~= spec_set(
                self.spec_options(),
                "WebGPU:validationMode"@,
                spec_validation_mode_name(mode),
            ),
    {
        let mut this = self;
        this.options.set("WebGPU:validationMode", mode.as_str());
        this
    }

    /// Names the nodes forced to run on the CPU.
    pub fn with_force_cpu_node_names(self, names: String) -> (r: WebGPUExecutionProvider)
        ensures
            r.spec_options() =~= spec_set(
                self.spec_options(),
                "WebGPU:forceCpuNodeNames"@,
                names@,
            ),
    {
        let mut this = self;
        this.options.set("WebGPU:forceCpuNodeNames", names.as_str());
        this
    }

    /// Enables or disables PIX capture support.
    pub fn with_enable_pix_capture(self, enable: bool) -> (r: WebGPUExecutionProvider)
        ensures
            r.spec_options() =~= spec_set(
                self.spec_options(),
                "WebGPU:enablePIXCapture"@,
                spec_switch_name(enable),
            ),
    {
        let mut this = self;
        this.options.set("WebGPU:enablePIXCapture", if enable { "1" } else { "0" });
        this
    }

    /// Sets an arbitrary provider option by key.
    pub fn with_arbitrary_config(self, key: String, value: String) -> (r:
        WebGPUExecutionProvider)
        ensures
            r.spec_options() =~= spec_set(self.spec_options(), key@, value@),
    {
        let mut this = self;
        this.options.set(key.as_str(), value.as_str());
        this
    }

    /// Finishes the builder: the provider's name and options, ready to be
    /// registered with a session.
    pub fn build(self) -> (r: ExecutionProviderDispatch)
        ensures
            r.spec_name() =~= "WebGpuExecutionProvider"@,
            r.spec_entries() =~= self.spec_options(),
    {
        let name = self.as_str().to_owned();
        ExecutionProviderDispatch::new(name, self.options)
    }
}

} // verus!
