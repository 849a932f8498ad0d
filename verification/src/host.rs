//! Host configuration: how the stdio host is started and which runtime
//! model drives its workers.
use vstd::prelude::*;

verus! {

/// How to start the stdio host: its state database and, optionally, the
/// model that runs its turns. Paths are kept as text.
#[derive(Debug, Clone, PartialEq, Eq)]
pub struct StdioHostConfig {
    pub state_db: String,
    pub model_command: Option<String>,
    pub model_args: Vec<String>,
    pub model: Option<String>,
    pub provider_config: Option<String>,
    pub max_steps: Option<u32>,
    pub max_tokens: Option<u64>,
    pub temperature: Option<String>,
}

/// A runtime model run as an outside program.
#[derive(Debug, Clone, PartialEq, Eq)]
pub struct ExternalRuntimeModelConfig {
    pub program: String,
    pub args: Vec<String>,
    pub max_steps: u32,
}

/// A runtime model served by a configured provider.
#[derive(Debug, Clone, PartialEq, Eq)]
pub struct ProviderRuntimeModelConfig {
    pub model: Option<String>,
    pub config_path: Option<String>,
    pub max_steps: u32,
    pub max_tokens: Option<u64>,
    pub temperature: Option<String>,
}

/// The runtime model a host drives its workers with.
#[derive(Debug, Clone, PartialEq, Eq)]
pub enum HostRuntimeModelConfig {
    External(ExternalRuntimeModelConfig),
    Provider(ProviderRuntimeModelConfig),
}

impl StdioHostConfig {
    /// A configuration with the state database `state_db` and no runtime
    /// model: no model command or arguments, model, provider configuration,
    /// step or token limit, or temperature.
    pub fn state_db(state_db: &str) -> (r: StdioHostConfig)
        ensures
            r.state_db@ == state_db@,
            r.model_command is None,
            r.model_args@.len() == 0,
            r.model is None,
            r.provider_config is None,
            r.max_steps is None,
            r.max_tokens is None,
            r.temperature is None,
    {
        StdioHostConfig {
            state_db: String::from_str(state_db),
            model_command: None,
            model_args: Vec::new(),
            model: None,
            provider_config: None,
            max_steps: None,
            max_tokens: None,
            temperature: None,
        }
    }
}

/// The file name of the host daemon executable on the platform.
pub open spec fn hostd_file_name(windows: bool) -> Seq<char> {
    if windows {
        "agent-os-hostd.exe"@
    } else {
        "agent-os-hostd"@
    }
}

/// The file name of the host daemon executable, `agent-os-hostd`, with
/// `.exe` on Windows.
pub fn hostd_executable_file_name(windows: bool) -> (r: &'static str)
    ensures
        r@ == hostd_file_name(windows),
{
    if windows {
        "agent-os-hostd.exe"
    } else {
        "agent-os-hostd"
    }
}

/// The character of a decimal digit.
pub open spec fn digit_char(d: nat) -> char {
    if d == 0 {
        '0'
    } else if d == 1 {
        '1'
    } else if d == 2 {
        '2'
    } else if d == 3 {
        '3'
    } else if d == 4 {
        '4'
    } else if d == 5 {
        '5'
    } else if d == 6 {
        '6'
    } else if d == 7 {
        '7'
    } else if d == 8 {
        '8'
    } else {
        '9'
    }
}

/// The decimal text of `n`, without leading zeros.
pub open spec fn decimal(n: nat) -> Seq<char>
    decreases n,
{
    if n < 10 {
        seq![digit_char(n)]
    } else {
        decimal(n / 10) + seq![digit_char(n % 10)]
    }
}

fn digit_text(d: u64) -> (r: &'static str)
    requires
        d < 10,
    ensures
        r@ == seq![digit_char(d as nat)],
{
    proof {
        reveal_strlit("0");
        reveal_strlit("1");
        reveal_strlit("2");
        reveal_strlit("3");
        reveal_strlit("4");
        reveal_strlit("5");
        reveal_strlit("6");
        reveal_strlit("7");
        reveal_strlit("8");
        reveal_strlit("9");
    }
    if d == 0 {
        "0"
    } else if d == 1 {
        "1"
    } else if d == 2 {
        "2"
    } else if d == 3 {
        "3"
    } else if d == 4 {
        "4"
    } else if d == 5 {
        "5"
    } else if d == 6 {
        "6"
    } else if d == 7 {
        "7"
    } else if d == 8 {
        "8"
    } else {
        "9"
    }
}

/// The decimal text of `n`.
pub fn decimal_text(n: u64) -> (r: String)
    ensures
        r@ == decimal(n as nat),
    decreases n,
{
    if n < 10 {
        String::from_str(digit_text(n))
    } else {
        let mut head = decimal_text(n / 10);
        head.append(digit_text(n % 10));
        head
    }
}

/// The command-line arguments the stdio host is started with: `--stdio`,
/// the state database, then each configured setting as a flag and its
/// value. Model arguments are passed only along with a model command.
pub open spec fn hostd_args(config: StdioHostConfig) -> Seq<Seq<char>> {
    let base = seq!["--stdio"@, "--state-db"@, config.state_db@];
    let with_command = match config.model_command {
        Some(c) => base + seq!["--model-command"@, c@] + config.model_args@.map_values(
            |a: String| seq!["--model-arg"@, a@],
        ).flatten(),
        None => base,
    };
    let with_model = match config.model {
        Some(m) => with_command + seq!["--model"@, m@],
        None => with_command,
    };
    let with_provider = match config.provider_config {
        Some(p) => with_model + seq!["--provider-config"@, p@],
        None => with_model,
    };
    let with_steps = match config.max_steps {
        Some(s) => with_provider + seq!["--max-steps"@, decimal(s as nat)],
        None => with_provider,
    };
    let with_tokens = match config.max_tokens {
        Some(t) => with_steps + seq!["--max-tokens"@, decimal(t as nat)],
        None => with_steps,
    };
    match config.temperature {
        Some(t) => with_tokens + seq!["--temperature"@, t@],
        None => with_tokens,
    }
}

fn push_text(out: &mut Vec<String>, text: &str)
    ensures
        final(out)@.len() == old(out)@.len() + 1,
        final(out)@.drop_last() == old(out)@,
        final(out)@.last()@ == text@,
{
    out.push(String::from_str(text));
    assert(out@.drop_last() =~= old(out)@);
}

/// The arguments to start the stdio host with.
pub fn hostd_arguments(config: &StdioHostConfig) -> (r: Vec<String>)
    ensures
        r@.map_values(|s: String| s@) == hostd_args(*config),
{
    let mut out: Vec<String> = Vec::new();
    push_text(&mut out, "--stdio");
    push_text(&mut out, "--state-db");
    push_text(&mut out, config.state_db.as_str());
    let ghost base = seq!["--stdio"@, "--state-db"@, config.state_db@];
    assert(out@.map_values(|s: String| s@) =~= base);
    if let Some(command) = &config.model_command {
        push_text(&mut out, "--model-command");
        push_text(&mut out, command.as_str());
        let ghost start = out@.map_values(|s: String| s@);
        assert(start =~= base + seq!["--model-command"@, command@]);
        let mut i: usize = 0;
        while i < config.model_args.len()
            invariant
                i <= config.model_args@.len(),
                out@.map_values(|s: String| s@) == start + config.model_args@.subrange(0, i as int).map_values(
                    |a: String| seq!["--model-arg"@, a@],
                ).flatten(),
            decreases config.model_args@.len() - i,
        {
            let ghost prev = out@.map_values(|s: String| s@);
            push_text(&mut out, "--model-arg");
            push_text(&mut out, config.model_args[i].as_str());
            proof {
                let args = config.model_args@;
                let pieces = |a: String| seq!["--model-arg"@, a@];
                let before = args.subrange(0, i as int).map_values(pieces);
                let after = args.subrange(0, i + 1).map_values(pieces);
                assert(after =~= before.push(pieces(args[i as int])));
                before.lemma_flatten_push(pieces(args[i as int]));
                assert(out@.map_values(|s: String| s@) =~= prev + seq!["--model-arg"@, args[i as int]@]);
            }
            i = i + 1;
        }
        assert(config.model_args@.subrange(0, i as int) =~= config.model_args@);
    }
    let ghost with_command = out@.map_values(|s: String| s@);
    if let Some(model) = &config.model {
        push_text(&mut out, "--model");
        push_text(&mut out, model.as_str());
        assert(out@.map_values(|s: String| s@) =~= with_command + seq!["--model"@, model@]);
    }
    let ghost with_model = out@.map_values(|s: String| s@);
    if let Some(provider) = &config.provider_config {
        push_text(&mut out, "--provider-config");
        push_text(&mut out, provider.as_str());
        assert(out@.map_values(|s: String| s@) =~= with_model + seq!["--provider-config"@, provider@]);
    }
    let ghost with_provider = out@.map_values(|s: String| s@);
    if let Some(steps) = config.max_steps {
        push_text(&mut out, "--max-steps");
        let text = decimal_text(steps as u64);
        push_text(&mut out, text.as_str());
        assert(out@.map_values(|s: String| s@) =~= with_provider + seq!["--max-steps"@, decimal(steps as nat)]);
    }
    let ghost with_steps = out@.map_values(|s: String| s@);
    if let Some(tokens) = config.max_tokens {
        push_text(&mut out, "--max-tokens");
        let text = decimal_text(tokens);
        push_text(&mut out, text.as_str());
        assert(out@.map_values(|s: String| s@) =~= with_steps + seq!["--max-tokens"@, decimal(tokens as nat)]);
    }
    let ghost with_tokens = out@.map_values(|s: String| s@);
    if let Some(temperature) = &config.temperature {
        push_text(&mut out, "--temperature");
        push_text(&mut out, temperature.as_str());
        assert(out@.map_values(|s: String| s@) =~= with_tokens + seq!["--temperature"@, temperature@]);
    }
    out
}

} // verus!
