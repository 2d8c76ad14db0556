//! The CSS watcher's configuration and its command line.
use vstd::prelude::*;

verus! {

/// The `[package.metadata.tailwind]` settings of a project.
#[derive(Debug, Clone)]
pub struct TailwindConfig {
    /// Input stylesheets; only the first one is passed on.
    pub input: Vec<String>,
    /// The output stylesheet.
    pub output: String,
    pub watch_enabled: bool,
    pub watch_always: bool,
    pub optimize_minify: bool,
    pub optimize_map: bool,
}

/// The arguments passed to the CSS tool for configuration `c`, in order:
/// the first input, the output, the watch flag, minify, source map.
pub open spec fn tailwind_args(c: TailwindConfig) -> Seq<Seq<char>> {
    let input = if c.input@.len() > 0 {
        seq!["-i"@, c.input@[0]@]
    } else {
        Seq::empty()
    };
    let watch = if !c.watch_enabled {
        Seq::empty()
    } else if c.watch_always {
        seq!["-w=always"@]
    } else {
        seq!["-w"@]
    };
    let minify = if c.optimize_minify {
        seq!["-m"@]
    } else {
        Seq::empty()
    };
    let map = if c.optimize_map {
        seq!["--map"@]
    } else {
        Seq::empty()
    };
    input + seq!["-o"@, c.output@] + watch + minify + map
}

/// The views of a list of strings.
pub open spec fn texts(v: Seq<String>) -> Seq<Seq<char>> {
    v.map_values(|s: String| s@)
}

/// Whether the CSS watcher is enabled: a configuration is present and turns
/// watching on.
pub fn is_tailwind_enabled(config: &Option<TailwindConfig>) -> (r: bool)
    ensures
        r == (config matches Some(c) && c.watch_enabled),
{
    match config {
        Some(c) => c.watch_enabled,
        None => false,
    }
}

fn push_text(args: &mut Vec<String>, s: &str)
    ensures
        texts(final(args)@) == texts(old(args)@).push(s@),
{
    args.push(s.to_string());
    assert(texts(final(args)@) =~= texts(old(args)@).push(s@));
}

/// Builds the CSS tool's command-line arguments from `config`.
pub fn build_tailwind_args(config: &TailwindConfig) -> (r: Vec<String>)
    ensures
        texts(r@) == tailwind_args(*config),
{
    let mut args: Vec<String> = Vec::new();
    if let Some(input) = config.input.first() {
        push_text(&mut args, "-i");
        push_text(&mut args, input.as_str());
    }
    push_text(&mut args, "-o");
    push_text(&mut args, config.output.as_str());
    if config.watch_enabled {
        if config.watch_always {
            push_text(&mut args, "-w=always");
        } else {
            push_text(&mut args, "-w");
        }
    }
    if config.optimize_minify {
        push_text(&mut args, "-m");
    }
    if config.optimize_map {
        push_text(&mut args, "--map");
    }
    assert(texts(args@) =~= tailwind_args(*config));
    args
}

} // verus!
