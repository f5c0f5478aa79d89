//! The per-task facades: fixed script names, pure path composition, the
//! exact argument order of each external task, and the normalization of an
//! invocation's outcome into what the caller is promised.

use vstd::prelude::*;
use vstd::string::StrSliceExecFns;
use vstd::string::StringExecFns;

use crate::orchestrator::{Outcome, OutcomeView};
use crate::text::{sanitized, sanitized_text, trim_str, trimmed};

verus! {

/// Script run by the data-processing task.
pub const TABULAR_SCRIPT: &'static str = "tabular_processor.py";

/// Script run by the GPU probe.
pub const GPU_SCRIPT: &'static str = "check_gpu.py";

/// Script run by the system-information probe.
pub const SYSTEM_INFO_SCRIPT: &'static str = "system_info.py";

/// Script run by the single-image inference task.
pub const PREDICTION_SCRIPT: &'static str = "predict.py";

/// Error label of the data-processing task.
pub const TABULAR_FAILURE_LABEL: &'static str = "Data processing failed: ";

/// Error label of the GPU probe.
pub const GPU_FAILURE_LABEL: &'static str = "GPU detection failed: ";

/// Error label of the system-information probe.
pub const SYSTEM_INFO_FAILURE_LABEL: &'static str = "System info failed: ";

/// Error label of the single-image inference task.
pub const PREDICTION_FAILURE_LABEL: &'static str = "Prediction failed: ";

/// Where a task's script lives under the caller-supplied base location:
/// the scripts' directory, then the script's own name.
pub open spec fn script_location_of(base: Seq<char>, script: Seq<char>) -> Seq<char> {
    base + "/"@ + "python_backend"@ + "/"@ + script
}

/// Composes the location of a task's script. Pure text composition: no
/// lookup on any filesystem.
pub fn script_location(base: &str, script: &str) -> (r: String)
    ensures
        r@ == script_location_of(base@, script@),
{
    let mut r = base.to_owned();
    r.append("/");
    r.append("python_backend");
    r.append("/");
    r.append(script);
    r
}

/// `s` without a leading Windows extended-length prefix, if one is there.
pub open spec fn without_verbatim_prefix(s: Seq<char>) -> Seq<char> {
    if s.len() >= 4 && s.subrange(0, 4) == seq!['\\', '\\', '?', '\\'] {
        s.subrange(4, s.len() as int)
    } else {
        s
    }
}

/// Removes the Windows extended-length prefix from the front of a path,
/// when it carries one; any other text is returned unchanged.
pub fn strip_verbatim_prefix(s: &str) -> (r: String)
    ensures
        r@ == without_verbatim_prefix(s@),
{
    let n = s.unicode_len();
    if n >= 4 && s.get_char(0) == '\\' && s.get_char(1) == '\\' && s.get_char(2) == '?'
        && s.get_char(3) == '\\' {
        proof {
            assert(s@.subrange(0, 4) =~= seq!['\\', '\\', '?', '\\']);
        }
        s.substring_char(4, n).to_owned()
    } else {
        proof {
            if s@.len() >= 4 && s@.subrange(0, 4) == seq!['\\', '\\', '?', '\\'] {
                assert(s@[0] == '\\' && s@[1] == '\\' && s@[2] == '?' && s@[3] == '\\');
            }
        }
        s.to_owned()
    }
}

/// The views of an argument list, in order.
pub open spec fn args_view(args: Seq<String>) -> Seq<Seq<char>> {
    Seq::new(args.len(), |i: int| args[i]@)
}

/// The view of an optional flag value.
pub open spec fn opt_view(o: Option<String>) -> Option<Seq<char>> {
    match o {
        Some(s) => Some(s@),
        None => None,
    }
}

/// The data-processing task's argument order: the script's location first,
/// then `--action` and `--file` with their values, then — only when they
/// were given — `--params` and `--out` with theirs.
pub open spec fn tabular_args_of(
    script: Seq<char>,
    action: Seq<char>,
    file: Seq<char>,
    params: Option<Seq<char>>,
    out: Option<Seq<char>>,
) -> Seq<Seq<char>> {
    seq![script, "--action"@, action, "--file"@, file] + (match params {
        Some(p) => seq!["--params"@, p],
        None => Seq::empty(),
    }) + (match out {
        Some(o) => seq!["--out"@, o],
        None => Seq::empty(),
    })
}

/// Builds the data-processing task's argument list, exactly in the order
/// `tabular_args_of` states.
pub fn tabular_args(
    script: String,
    action: String,
    file: String,
    params: Option<String>,
    out: Option<String>,
) -> (r: Vec<String>)
    ensures
        args_view(r@) == tabular_args_of(script@, action@, file@, opt_view(params), opt_view(out)),
{
    let ghost expected = tabular_args_of(script@, action@, file@, opt_view(params), opt_view(out));
    let mut r: Vec<String> = Vec::new();
    r.push(script);
    r.push(String::from_str("--action"));
    r.push(action);
    r.push(String::from_str("--file"));
    r.push(file);
    match params {
        Some(p) => {
            r.push(String::from_str("--params"));
            r.push(p);
        },
        None => {},
    }
    match out {
        Some(o) => {
            r.push(String::from_str("--out"));
            r.push(o);
        },
        None => {},
    }
    proof {
        assert(args_view(r@) =~= expected);
    }
    r
}

/// The single-image inference task's argument order: the script's location,
/// then the four required named flags, each followed by its value.
pub open spec fn prediction_args_of(
    script: Seq<char>,
    image: Seq<char>,
    model_path: Seq<char>,
    model_type: Seq<char>,
    classes: Seq<char>,
) -> Seq<Seq<char>> {
    seq![
        script,
        "--image"@,
        image,
        "--model_path"@,
        model_path,
        "--model_type"@,
        model_type,
        "--classes"@,
        classes,
    ]
}

/// Builds the inference task's argument list, exactly in the order
/// `prediction_args_of` states.
pub fn prediction_args(
    script: String,
    image: String,
    model_path: String,
    model_type: String,
    classes: String,
) -> (r: Vec<String>)
    ensures
        args_view(r@) == prediction_args_of(script@, image@, model_path@, model_type@, classes@),
{
    let ghost expected = prediction_args_of(script@, image@, model_path@, model_type@, classes@);
    let mut r: Vec<String> = Vec::new();
    r.push(script);
    r.push(String::from_str("--image"));
    r.push(image);
    r.push(String::from_str("--model_path"));
    r.push(model_path);
    r.push(String::from_str("--model_type"));
    r.push(model_type);
    r.push(String::from_str("--classes"));
    r.push(classes);
    proof {
        assert(args_view(r@) =~= expected);
    }
    r
}

/// A probe that runs one script and passes nothing else: its location is
/// the whole argument list.
pub fn single_script_args(script: String) -> (r: Vec<String>)
    ensures
        args_view(r@) == seq![script@],
{
    let mut r: Vec<String> = Vec::new();
    r.push(script);
    proof {
        assert(args_view(r@) =~= seq![script@]);
    }
    r
}

/// The in-line program the dependency probe hands to the interpreter.
pub open spec fn dependency_probe_source() -> Seq<char> {
    "import sys, json, importlib.util; p = lambda x: importlib.util.find_spec(x) is not None; print(json.dumps({'python': True, 'executable': sys.executable, 'version': sys.version.split()[0], 'pandas': p('pandas'), 'sklearn': p('sklearn'), 'torch': p('torch'), 'timm': p('timm'), 'optuna': p('optuna')}))"@
}

/// The dependency probe's argument list: no script file — the probe program
/// itself is handed to the interpreter in line.
pub fn dependency_args() -> (r: Vec<String>)
    ensures
        args_view(r@) == seq!["-c"@, dependency_probe_source()],
{
    let mut r: Vec<String> = Vec::new();
    r.push(String::from_str("-c"));
    r.push(
        String::from_str(
            "import sys, json, importlib.util; p = lambda x: importlib.util.find_spec(x) is not None; print(json.dumps({'python': True, 'executable': sys.executable, 'version': sys.version.split()[0], 'pandas': p('pandas'), 'sklearn': p('sklearn'), 'torch': p('torch'), 'timm': p('timm'), 'optuna': p('optuna')}))",
        ),
    );
    proof {
        assert(args_view(r@) =~= seq!["-c"@, dependency_probe_source()]);
    }
    r
}

/// Relays an outcome for a task whose payload is passed through verbatim —
/// untrimmed and unparsed — while a rejected invocation's error is labeled
/// with the task's name, so the caller can tell which task failed.
pub fn relay_labeled(label: &str, outcome: Outcome) -> (r: Result<String, String>)
    ensures
        match outcome@ {
            OutcomeView::Accepted(s) => r matches Ok(p) && p@ == s,
            OutcomeView::Rejected(e) => r matches Err(m) && m@ == label@ + e,
        },
{
    match outcome {
        Outcome::Accepted(s) => Ok(s),
        Outcome::Rejected(e) => {
            let mut m = label.to_owned();
            m.append(e.as_str());
            Err(m)
        },
    }
}

/// Relays an outcome for a probe with trimmed output: an accepted run's
/// output is stripped of leading and trailing whitespace, a rejected
/// invocation's error is labeled with the task's name.
pub fn relay_trimmed(label: &str, outcome: Outcome) -> (r: Result<String, String>)
    ensures
        match outcome@ {
            OutcomeView::Accepted(s) => r matches Ok(p) && p@ == trimmed(s),
            OutcomeView::Rejected(e) => r matches Err(m) && m@ == label@ + e,
        },
{
    match outcome {
        Outcome::Accepted(s) => Ok(trim_str(s.as_str())),
        Outcome::Rejected(e) => {
            let mut m = label.to_owned();
            m.append(e.as_str());
            Err(m)
        },
    }
}

/// The capability report synthesized when the dependency probe itself
/// failed: a well-formed JSON document naming no usable interpreter, every
/// capability off, and the failure text — escaped for a JSON string
/// literal — in its `error` field.
pub open spec fn dependency_failure_json(err: Seq<char>) -> Seq<char> {
    "{\"python\": false, \"version\": null, \"pandas\": false, \"sklearn\": false, \"torch\": false, \"timm\": false, \"optuna\": false, \"error\": \""@
        + sanitized(err) + "\"}"@
}

/// Normalizes the dependency probe's outcome. This probe never hard-fails:
/// an accepted run's output is relayed trimmed, and a rejected invocation
/// still produces a success-shaped capability report with the failure text
/// embedded.
pub fn dependency_report(outcome: Outcome) -> (r: String)
    ensures
        match outcome@ {
            OutcomeView::Accepted(s) => r@ == trimmed(s),
            OutcomeView::Rejected(e) => r@ == dependency_failure_json(e),
        },
{
    match outcome {
        Outcome::Accepted(s) => trim_str(s.as_str()),
        Outcome::Rejected(e) => {
            let mut r = String::from_str(
                "{\"python\": false, \"version\": null, \"pandas\": false, \"sklearn\": false, \"torch\": false, \"timm\": false, \"optuna\": false, \"error\": \"",
            );
            let escaped = sanitized_text(e.as_str());
            r.append(escaped.as_str());
            r.append("\"}");
            r
        },
    }
}

} // verus!
