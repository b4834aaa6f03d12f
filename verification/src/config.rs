//! The configuration of the agent: the model providers, the limits of the
//! loops and the filters of the files it works on.

use vstd::prelude::*;
use crate::text::{chars_eq, strings_from, strings_text, to_chars, append_str, from_chars};
use crate::utils::paths::{join_path, path_join};

verus! {

/// A model provider: where its model comes from, how it is served and how
/// it is reached.
#[derive(Clone, Debug)]
pub struct AIProvider {
    pub name: String,
    pub comment: String,
    pub source: String,
    pub endpoint: String,
    pub model: String,
    pub api_key: String,
    pub llmbin: String,
    pub llmmodeldir: String,
    pub llmparam: Vec<String>,
}

/// What a provider holds.
pub struct ProviderView {
    pub name: Seq<char>,
    pub comment: Seq<char>,
    pub source: Seq<char>,
    pub endpoint: Seq<char>,
    pub model: Seq<char>,
    pub api_key: Seq<char>,
    pub llmbin: Seq<char>,
    pub llmmodeldir: Seq<char>,
    pub llmparam: Seq<Seq<char>>,
}

impl View for AIProvider {
    type V = ProviderView;

    open spec fn view(&self) -> ProviderView {
        ProviderView {
            name: self.name@,
            comment: self.comment@,
            source: self.source@,
            endpoint: self.endpoint@,
            model: self.model@,
            api_key: self.api_key@,
            llmbin: self.llmbin@,
            llmmodeldir: self.llmmodeldir@,
            llmparam: strings_text(self.llmparam@),
        }
    }
}

/// The provider chosen for a task; of its temperature the checks only read
/// whether it is finite.
#[derive(Clone, Debug)]
pub struct AITaskProvider {
    pub task: String,
    pub provider: String,
    pub finite_temperature: bool,
}

/// How the agent is run in a container.
#[derive(Clone, Debug)]
pub struct DockerSettings {
    pub image_name: String,
    pub arguments: Vec<String>,
}

/// How often a workflow and a tool call may fail before giving up.
#[derive(Clone, Copy, Debug)]
pub struct Boundaries {
    pub max_workflow_fail: usize,
    pub max_tool_call_fail: usize,
}

/// The configuration.
#[derive(Clone, Debug)]
pub struct Config {
    pub docker_settings: DockerSettings,
    pub provider: String,
    pub providerlist: Vec<AIProvider>,
    pub taskproviderlist: Vec<AITaskProvider>,
    pub max_try_count: Boundaries,
    pub queue_length_max: usize,
    pub queue_length_save: usize,
    pub scanendfilter: Vec<String>,
    pub scanfullfilter: Vec<String>,
    pub writefilter: Vec<String>,
    pub readfilter: Vec<String>,
}

/// Why a configuration could not be had: reading, writing, creating its
/// directory, parsing or serialising failed (with the reason), or it is
/// not valid.
#[derive(Debug)]
pub enum ConfigError {
    Read { path: String, source: String },
    Write { path: String, source: String },
    CreateDirectory { path: String, source: String },
    Parse { path: String, source: String },
    Serialize(String),
    Invalid(String),
}

/// The providers of the default configuration.
pub open spec fn default_provider(i: int) -> ProviderView {
    if i == 0 {
        ProviderView {
            name: "qwen25"@,
            comment: "works, but is not very useful"@,
            source: "https://huggingface.co/apto-as/Qwen2.5-Coder-14B-Instruct-Q5_K_M-GGUF/resolve/main/qwen2.5-coder-14b-instruct-q5_k_m.gguf"@,
            endpoint: "http://localhost:8080/v1"@,
            model: "qwen2.5-coder-14b-instruct-q5_k_m.gguf"@,
            api_key: Seq::empty(),
            llmbin: "llama-server"@,
            llmmodeldir: "/data/ai/llm/"@,
            llmparam: seq!["--ctx-size"@, "49152"@, "--n-gpu-layers"@, "999"@, "--parallel"@, "1"@, "--port"@, "8080"@, "--host"@, "127.0.0.1"@, "--timeout"@, "600"@, "--flash-attn"@, "on"@, "--batch-size"@, "2048"@, "--ubatch-size"@, "1024"@, "--cache-type-k"@, "q8_0"@, "--cache-type-v"@, "q8_0"@, "--predict"@, "8192"@, "--load-mode"@, "mmap"@],
        }
    } else if i == 1 {
        ProviderView {
            name: "qwen38q3"@,
            comment: "does not work yet. produces garbage. may be llama problem"@,
            source: "https://huggingface.co/unsloth/Qwen3.8-27B-GGUF/blob/main/Qwen3.8-27B-UD-Q3_K_XL.gguf"@,
            endpoint: "http://localhost:8080/v1"@,
            model: "Qwen3.8-27B-UD-Q3_K_XL.gguf"@,
            api_key: Seq::empty(),
            llmbin: "llama-server"@,
            llmmodeldir: "/data/ai/llm/"@,
            llmparam: seq!["--ctx-size"@, "80000"@, "--n-gpu-layers"@, "999"@, "--parallel"@, "1"@, "--port"@, "8080"@, "--host"@, "127.0.0.1"@, "--timeout"@, "600"@, "--flash-attn"@, "on"@, "--batch-size"@, "2048"@, "--ubatch-size"@, "1024"@, "--cache-type-k"@, "q8_0"@, "--cache-type-v"@, "q8_0"@, "--predict"@, "8192"@, "--reasoning-preserve"@, "--load-mode"@, "mmap"@],
        }
    } else if i == 2 {
        ProviderView {
            name: "qwen38q4"@,
            comment: "does not work yet. produces garbage. may be llama problem"@,
            source: "https://huggingface.co/unsloth/Qwen3.8-27B-GGUF/resolve/main/Qwen3.8-27B-UD-IQ4_XS.gguf"@,
            endpoint: "http://localhost:8080/v1"@,
            model: "Qwen3.8-27B-UD-IQ4_XS.gguf"@,
            api_key: Seq::empty(),
            llmbin: "llama-server"@,
            llmmodeldir: "/data/ai/llm/"@,
            llmparam: seq!["--ctx-size"@, "49152"@, "--n-gpu-layers"@, "999"@, "--parallel"@, "1"@, "--port"@, "8080"@, "--host"@, "127.0.0.1"@, "--timeout"@, "600"@, "--flash-attn"@, "on"@, "--batch-size"@, "2048"@, "--ubatch-size"@, "1024"@, "--cache-type-k"@, "q8_0"@, "--cache-type-v"@, "q8_0"@, "--predict"@, "8192"@, "--reasoning-preserve"@, "--load-mode"@, "mmap"@],
        }
    } else if i == 3 {
        ProviderView {
            name: "qwen38q5"@,
            comment: "not useful, ca 2tok/s needs CPU offloading"@,
            source: "https://huggingface.co/unsloth/Qwen3.8-27B-GGUF/resolve/main/Qwen3.8-27B-UD-Q5_K_M.gguf"@,
            endpoint: "http://localhost:8080/v1"@,
            model: "Qwen3.8-27B-UD-Q5_K_M.gguf"@,
            api_key: Seq::empty(),
            llmbin: "llama-server"@,
            llmmodeldir: "/data/ai/llm/"@,
            llmparam: seq!["--ctx-size"@, "100000"@, "--n-gpu-layers"@, "30"@, "--parallel"@, "1"@, "--port"@, "8080"@, "--host"@, "127.0.0.1"@, "--timeout"@, "600"@, "--flash-attn"@, "on"@, "--batch-size"@, "2048"@, "--ubatch-size"@, "1024"@, "--cache-type-k"@, "q8_0"@, "--cache-type-v"@, "q8_0"@, "--predict"@, "8192"@, "--spec-type"@, "draft-mtp"@, "--spec-draft-n-max"@, "2"@],
        }
    } else if i == 4 {
        ProviderView {
            name: "devs"@,
            comment: "works, but small conext. not tested with complex problems"@,
            source: "https://huggingface.co/unsloth/Devstral-Small-2-24B-Instruct-2512-GGUF/resolve/main/Devstral-Small-2-24B-Instruct-2512-UD-Q4_K_XL.gguf"@,
            endpoint: "http://localhost:8080/v1"@,
            model: "Devstral-Small-2-24B-Instruct-2512-UD-Q4_K_XL.gguf"@,
            api_key: Seq::empty(),
            llmbin: "llama-server"@,
            llmmodeldir: "/data/ai/llm/"@,
            llmparam: seq!["--ctx-size"@, "28000"@, "--n-gpu-layers"@, "999"@, "--parallel"@, "1"@, "--port"@, "8080"@, "--host"@, "127.0.0.1"@, "--timeout"@, "600"@, "--flash-attn"@, "on"@, "--batch-size"@, "2048"@, "--ubatch-size"@, "1024"@, "--cache-type-k"@, "q4_0"@, "--cache-type-v"@, "q4_0"@, "--predict"@, "8192"@, "--load-mode"@, "mmap"@],
        }
    } else {
        ProviderView {
            name: Seq::empty(),
            comment: Seq::empty(),
            source: Seq::empty(),
            endpoint: Seq::empty(),
            model: Seq::empty(),
            api_key: Seq::empty(),
            llmbin: Seq::empty(),
            llmmodeldir: Seq::empty(),
            llmparam: Seq::empty(),
        }
    }
}

/// The suffixes of the source files of the default configuration.
pub open spec fn default_scanendfilter() -> Seq<Seq<char>> {
    seq![".c"@, ".cc"@, ".cpp"@, ".cxx"@, ".h"@, ".hh"@, ".hpp"@, ".hxx"@, ".in"@, ".java"@, ".jl"@, ".rs"@, ".sv"@, ".tcl"@]
}

/// The build files of the default configuration.
pub open spec fn default_scanfullfilter() -> Seq<Seq<char>> {
    seq!["CMakeLists.txt"@, "Cargo.toml"@, "meson.build"@, "pom.xml"@]
}

impl Config {
    /// The default configuration: the provider `qwen25` selected among five
    /// local providers, no task providers, at most 100 failed workflows and
    /// tool calls, queues of 14 (saving 1), the usual source suffixes and
    /// build files, writing in the project and reading next to it and in
    /// `/opt`.
    pub fn default() -> (r: Self)
        ensures
            r.docker_settings.image_name@.len() == 0,
            r.docker_settings.arguments@.len() == 0,
            r.provider@ == "qwen25"@,
            r.providerlist@.len() == 5,
            forall|i: int| 0 <= i < 5 ==> #[trigger] r.providerlist@[i]@ == default_provider(i),
            r.taskproviderlist@.len() == 0,
            r.max_try_count.max_workflow_fail == 100,
            r.max_try_count.max_tool_call_fail == 100,
            r.queue_length_max == 14,
            r.queue_length_save == 1,
            strings_text(r.scanendfilter@) == default_scanendfilter(),
            strings_text(r.scanfullfilter@) == default_scanfullfilter(),
            strings_text(r.writefilter@) == seq!["{{projectdir}}"@],
            strings_text(r.readfilter@) == seq!["{{projectdir}}/.."@, "/opt"@],
    {
        let p0 = AIProvider {
            name: "qwen25".to_string(),
            comment: "works, but is not very useful".to_string(),
            source: "https://huggingface.co/apto-as/Qwen2.5-Coder-14B-Instruct-Q5_K_M-GGUF/resolve/main/qwen2.5-coder-14b-instruct-q5_k_m.gguf".to_string(),
            endpoint: "http://localhost:8080/v1".to_string(),
            model: "qwen2.5-coder-14b-instruct-q5_k_m.gguf".to_string(),
            api_key: String::new(),
            llmbin: "llama-server".to_string(),
            llmmodeldir: "/data/ai/llm/".to_string(),
            llmparam: strings_from(&["--ctx-size", "49152", "--n-gpu-layers", "999", "--parallel", "1", "--port", "8080", "--host", "127.0.0.1", "--timeout", "600", "--flash-attn", "on", "--batch-size", "2048", "--ubatch-size", "1024", "--cache-type-k", "q8_0", "--cache-type-v", "q8_0", "--predict", "8192", "--load-mode", "mmap"]),
        };
        assert(p0@.llmparam =~= default_provider(0).llmparam);
        assert(p0@ == default_provider(0));
        let p1 = AIProvider {
            name: "qwen38q3".to_string(),
            comment: "does not work yet. produces garbage. may be llama problem".to_string(),
            source: "https://huggingface.co/unsloth/Qwen3.8-27B-GGUF/blob/main/Qwen3.8-27B-UD-Q3_K_XL.gguf".to_string(),
            endpoint: "http://localhost:8080/v1".to_string(),
            model: "Qwen3.8-27B-UD-Q3_K_XL.gguf".to_string(),
            api_key: String::new(),
            llmbin: "llama-server".to_string(),
            llmmodeldir: "/data/ai/llm/".to_string(),
            llmparam: strings_from(&["--ctx-size", "80000", "--n-gpu-layers", "999", "--parallel", "1", "--port", "8080", "--host", "127.0.0.1", "--timeout", "600", "--flash-attn", "on", "--batch-size", "2048", "--ubatch-size", "1024", "--cache-type-k", "q8_0", "--cache-type-v", "q8_0", "--predict", "8192", "--reasoning-preserve", "--load-mode", "mmap"]),
        };
        assert(p1@.llmparam =~= default_provider(1).llmparam);
        assert(p1@ == default_provider(1));
        let p2 = AIProvider {
            name: "qwen38q4".to_string(),
            comment: "does not work yet. produces garbage. may be llama problem".to_string(),
            source: "https://huggingface.co/unsloth/Qwen3.8-27B-GGUF/resolve/main/Qwen3.8-27B-UD-IQ4_XS.gguf".to_string(),
            endpoint: "http://localhost:8080/v1".to_string(),
            model: "Qwen3.8-27B-UD-IQ4_XS.gguf".to_string(),
            api_key: String::new(),
            llmbin: "llama-server".to_string(),
            llmmodeldir: "/data/ai/llm/".to_string(),
            llmparam: strings_from(&["--ctx-size", "49152", "--n-gpu-layers", "999", "--parallel", "1", "--port", "8080", "--host", "127.0.0.1", "--timeout", "600", "--flash-attn", "on", "--batch-size", "2048", "--ubatch-size", "1024", "--cache-type-k", "q8_0", "--cache-type-v", "q8_0", "--predict", "8192", "--reasoning-preserve", "--load-mode", "mmap"]),
        };
        assert(p2@.llmparam =~= default_provider(2).llmparam);
        assert(p2@ == default_provider(2));
        let p3 = AIProvider {
            name: "qwen38q5".to_string(),
            comment: "not useful, ca 2tok/s needs CPU offloading".to_string(),
            source: "https://huggingface.co/unsloth/Qwen3.8-27B-GGUF/resolve/main/Qwen3.8-27B-UD-Q5_K_M.gguf".to_string(),
            endpoint: "http://localhost:8080/v1".to_string(),
            model: "Qwen3.8-27B-UD-Q5_K_M.gguf".to_string(),
            api_key: String::new(),
            llmbin: "llama-server".to_string(),
            llmmodeldir: "/data/ai/llm/".to_string(),
            llmparam: strings_from(&["--ctx-size", "100000", "--n-gpu-layers", "30", "--parallel", "1", "--port", "8080", "--host", "127.0.0.1", "--timeout", "600", "--flash-attn", "on", "--batch-size", "2048", "--ubatch-size", "1024", "--cache-type-k", "q8_0", "--cache-type-v", "q8_0", "--predict", "8192", "--spec-type", "draft-mtp", "--spec-draft-n-max", "2"]),
        };
        assert(p3@.llmparam =~= default_provider(3).llmparam);
        assert(p3@ == default_provider(3));
        let p4 = AIProvider {
            name: "devs".to_string(),
            comment: "works, but small conext. not tested with complex problems".to_string(),
            source: "https://huggingface.co/unsloth/Devstral-Small-2-24B-Instruct-2512-GGUF/resolve/main/Devstral-Small-2-24B-Instruct-2512-UD-Q4_K_XL.gguf".to_string(),
            endpoint: "http://localhost:8080/v1".to_string(),
            model: "Devstral-Small-2-24B-Instruct-2512-UD-Q4_K_XL.gguf".to_string(),
            api_key: String::new(),
            llmbin: "llama-server".to_string(),
            llmmodeldir: "/data/ai/llm/".to_string(),
            llmparam: strings_from(&["--ctx-size", "28000", "--n-gpu-layers", "999", "--parallel", "1", "--port", "8080", "--host", "127.0.0.1", "--timeout", "600", "--flash-attn", "on", "--batch-size", "2048", "--ubatch-size", "1024", "--cache-type-k", "q4_0", "--cache-type-v", "q4_0", "--predict", "8192", "--load-mode", "mmap"]),
        };
        assert(p4@.llmparam =~= default_provider(4).llmparam);
        assert(p4@ == default_provider(4));
        let providerlist = vec![p0, p1, p2, p3, p4];
        assert(providerlist@[0]@ == default_provider(0));
        let scanendfilter = strings_from(&[".c", ".cc", ".cpp", ".cxx", ".h", ".hh", ".hpp", ".hxx", ".in", ".java", ".jl", ".rs", ".sv", ".tcl"]);
        assert(strings_text(scanendfilter@) =~= default_scanendfilter());
        let scanfullfilter = strings_from(&["CMakeLists.txt", "Cargo.toml", "meson.build", "pom.xml"]);
        assert(strings_text(scanfullfilter@) =~= default_scanfullfilter());
        let writefilter = strings_from(&["{{projectdir}}"]);
        assert(strings_text(writefilter@) =~= seq!["{{projectdir}}"@]);
        let readfilter = strings_from(&["{{projectdir}}/..", "/opt"]);
        assert(strings_text(readfilter@) =~= seq!["{{projectdir}}/.."@, "/opt"@]);
        Config {
            docker_settings: DockerSettings { image_name: String::new(), arguments: Vec::new() },
            provider: "qwen25".to_string(),
            providerlist,
            taskproviderlist: Vec::new(),
            max_try_count: Boundaries { max_workflow_fail: 100, max_tool_call_fail: 100 },
            queue_length_max: 14,
            queue_length_save: 1,
            scanendfilter,
            scanfullfilter,
            writefilter,
            readfilter,
        }
    }
}

} // verus!

verus! {

/// The position of the first provider named `name`.
pub open spec fn provider_index(list: Seq<AIProvider>, name: Seq<char>) -> Option<int>
    decreases list.len(),
{
    if list.len() == 0 {
        None
    } else {
        match provider_index(list.drop_last(), name) {
            Some(i) => Some(i),
            None => if list.last().name@ == name {
                Some(list.len() - 1)
            } else {
                None
            },
        }
    }
}

/// Whether some provider is named `name`.
pub open spec fn has_provider(list: Seq<AIProvider>, name: Seq<char>) -> bool {
    provider_index(list, name) is Some
}

/// The problem of the task providers from position `k` on: the first that
/// names an unknown provider or has a temperature that is not finite.
pub open spec fn task_problem(tasks: Seq<AITaskProvider>, list: Seq<AIProvider>, k: int) -> Option<Seq<char>>
    decreases tasks.len() - k,
{
    if k < 0 || k >= tasks.len() {
        None
    } else if !has_provider(list, tasks[k].provider@) {
        Some("task '"@ + tasks[k].task@ + "' references unknown provider '"@ + tasks[k].provider@ + "'"@)
    } else if !tasks[k].finite_temperature {
        Some("task '"@ + tasks[k].task@ + "' has a non-finite temperature"@)
    } else {
        task_problem(tasks, list, k + 1)
    }
}

/// What is wrong with a configuration, if anything: a save queue longer
/// than the queue, a bad task provider, or a selected provider that does not
/// exist.
pub open spec fn config_problem(c: Config) -> Option<Seq<char>> {
    if c.queue_length_save > c.queue_length_max {
        Some("queue_length_save cannot be greater than queue_length_max"@)
    } else {
        match task_problem(c.taskproviderlist@, c.providerlist@, 0) {
            Some(m) => Some(m),
            None => if !has_provider(c.providerlist@, c.provider@) {
                Some("selected provider '"@ + c.provider@ + "' does not exist"@)
            } else {
                None
            },
        }
    }
}

/// The provider a name selects: `default` stands for the selected provider.
pub open spec fn provider_for(c: Config, name: Seq<char>) -> Option<int> {
    if name == "default"@ {
        provider_index(c.providerlist@, c.provider@)
    } else {
        provider_index(c.providerlist@, name)
    }
}

/// The first provider named `name`.
fn find_provider<'a>(list: &'a Vec<AIProvider>, name: &str) -> (r: Option<&'a AIProvider>)
    ensures
        match provider_index(list@, name@) {
            Some(i) => r matches Some(p) && 0 <= i < list@.len() && *p == list@[i],
            None => r is None,
        },
{
    let n = to_chars(name);
    let mut i: usize = 0;
    while i < list.len()
        invariant
            i <= list@.len(),
            n@ == name@,
            provider_index(list@.take(i as int), name@) is None,
        decreases list@.len() - i,
    {
        let pn = to_chars(list[i].name.as_str());
        proof {
            assert(list@.take(i + 1).drop_last() =~= list@.take(i as int));
        }
        if chars_eq(pn.as_slice(), n.as_slice()) {
            proof {
                lemma_provider_index_prefix(list@, i as int + 1, name@);
            }
            return Some(&list[i]);
        }
        i = i + 1;
    }
    proof {
        assert(list@.take(list@.len() as int) =~= list@);
    }
    None
}

/// Once a prefix holds the first provider of a name, the whole list does.
proof fn lemma_provider_index_prefix(list: Seq<AIProvider>, k: int, name: Seq<char>)
    requires
        0 <= k <= list.len(),
        provider_index(list.take(k), name) is Some,
    ensures
        provider_index(list, name) == provider_index(list.take(k), name),
        provider_index(list, name)->0 < k,
    decreases list.len() - k,
{
    lemma_provider_index_bound(list.take(k), name);
    if k < list.len() {
        assert(list.take(k + 1).drop_last() =~= list.take(k));
        lemma_provider_index_prefix(list, k + 1, name);
    } else {
        assert(list.take(k) =~= list);
    }
}

/// A found position lies within the list.
proof fn lemma_provider_index_bound(list: Seq<AIProvider>, name: Seq<char>)
    ensures
        provider_index(list, name) matches Some(i) ==> 0 <= i < list.len(),
    decreases list.len(),
{
    if list.len() > 0 {
        lemma_provider_index_bound(list.drop_last(), name);
    }
}

impl Config {
    /// The provider named `name` (`default` means the selected one). The
    /// selected provider must not itself be called `default` when `default`
    /// is asked for: that would never end.
    pub fn get_provider(&self, name: &str) -> (r: Option<&AIProvider>)
        requires
            !(name@ == "default"@ && self.provider@ == "default"@),
        ensures
            match provider_for(*self, name@) {
                Some(i) => r matches Some(p) && *p == self.providerlist@[i],
                None => r is None,
            },
        decreases if name@ == "default"@ {
            2nat
        } else {
            0nat
        },
    {
        let n = to_chars(name);
        let d = to_chars("default");
        if chars_eq(n.as_slice(), d.as_slice()) {
            self.get_selected_provider()
        } else {
            find_provider(&self.providerlist, name)
        }
    }

    /// The selected provider; its name must not be `default`, which would
    /// select itself without end.
    pub fn get_selected_provider(&self) -> (r: Option<&AIProvider>)
        requires
            self.provider@ != "default"@,
        ensures
            match provider_index(self.providerlist@, self.provider@) {
                Some(i) => r matches Some(p) && *p == self.providerlist@[i],
                None => r is None,
            },
        decreases 1nat,
    {
        self.get_provider(self.provider.as_str())
    }

    /// Checks the configuration (see `config_problem`).
    pub fn validate(&self) -> (r: Result<(), ConfigError>)
        ensures
            match config_problem(*self) {
                Some(m) => r matches Err(ConfigError::Invalid(x)) && x@ == m,
                None => r is Ok,
            },
    {
        if self.queue_length_save > self.queue_length_max {
            return Err(ConfigError::Invalid("queue_length_save cannot be greater than queue_length_max".to_string()));
        }
        let n = self.taskproviderlist.len();
        let mut k: usize = 0;
        while k < n
            invariant
                n == self.taskproviderlist@.len(),
                k <= n,
                self.queue_length_save <= self.queue_length_max,
                task_problem(self.taskproviderlist@, self.providerlist@, 0) == task_problem(
                    self.taskproviderlist@,
                    self.providerlist@,
                    k as int,
                ),
            decreases n - k,
        {
            let tp = &self.taskproviderlist[k];
            if find_provider(&self.providerlist, tp.provider.as_str()).is_none() {
                let mut m = to_chars("task '");
                append_str(&mut m, tp.task.as_str());
                append_str(&mut m, "' references unknown provider '");
                append_str(&mut m, tp.provider.as_str());
                append_str(&mut m, "'");
                let msg = from_chars(m.as_slice());
                assert(msg@ =~= "task '"@ + tp.task@ + "' references unknown provider '"@ + tp.provider@ + "'"@);
                return Err(ConfigError::Invalid(msg));
            }
            if !tp.finite_temperature {
                let mut m = to_chars("task '");
                append_str(&mut m, tp.task.as_str());
                append_str(&mut m, "' has a non-finite temperature");
                let msg = from_chars(m.as_slice());
                assert(msg@ =~= "task '"@ + tp.task@ + "' has a non-finite temperature"@);
                return Err(ConfigError::Invalid(msg));
            }
            k = k + 1;
        }
        if find_provider(&self.providerlist, self.provider.as_str()).is_none() {
            let mut m = to_chars("selected provider '");
            append_str(&mut m, self.provider.as_str());
            append_str(&mut m, "' does not exist");
            let msg = from_chars(m.as_slice());
            assert(msg@ =~= "selected provider '"@ + self.provider@ + "' does not exist"@);
            return Err(ConfigError::Invalid(msg));
        }
        Ok(())
    }
}


/// The default configuration passes its own checks: its selected provider
/// is the first of its providers, it has no task providers, and its save
/// queue is shorter than its queue.
pub proof fn law_default_is_valid(c: Config)
    requires
        c.provider@ == "qwen25"@,
        c.providerlist@.len() == 5,
        forall|i: int| 0 <= i < 5 ==> #[trigger] c.providerlist@[i]@ == default_provider(i),
        c.taskproviderlist@.len() == 0,
        c.queue_length_max == 14,
        c.queue_length_save == 1,
    ensures
        config_problem(c) is None,
        provider_for(c, "default"@) == Some(0int),
{
    let list = c.providerlist@;
    assert(list[0]@ == default_provider(0));
    assert(list[0].name@ == c.provider@);
    assert(list.take(1).drop_last() =~= Seq::<AIProvider>::empty());
    assert(provider_index(Seq::<AIProvider>::empty(), c.provider@) is None);
    assert(list.take(1).last() == list[0]);
    assert(provider_index(list.take(1), c.provider@) == Some(0int));
    lemma_provider_index_prefix(list, 1, c.provider@);
}


/// Where the configuration is kept: `aifix/config.json` below the
/// configuration directory `xdg` when it is given and not empty, else below
/// `.config` in the home directory.
pub open spec fn config_path(xdg: Option<Seq<char>>, home: Seq<char>) -> Seq<char> {
    match xdg {
        Some(x) if x.len() > 0 => path_join(path_join(x, "aifix"@), "config.json"@),
        _ => path_join(path_join(path_join(home, ".config"@), "aifix"@), "config.json"@),
    }
}

impl Config {
    /// The path of the configuration file for the configuration directory
    /// `xdg` (the value of `XDG_CONFIG_HOME`, if set) and the home directory.
    pub fn default_path(xdg: Option<&str>, home: &str) -> (r: String)
        ensures
            r@ == config_path(
                match xdg {
                    Some(x) => Some(x@),
                    None => None,
                },
                home@,
            ),
    {
        let given = match xdg {
            Some(x) => to_chars(x).len() > 0,
            None => false,
        };
        match xdg {
            Some(x) if given => {
                let d = join_path(x, "aifix");
                join_path(d.as_str(), "config.json")
            },
            _ => {
                let c = join_path(home, ".config");
                let d = join_path(c.as_str(), "aifix");
                join_path(d.as_str(), "config.json")
            },
        }
    }
}

} // verus!
