use vstd::prelude::*;

use crate::config::CliError;
use crate::output::Style;
use crate::user_service::TargetOs;

verus! {

/// What every command is run with: the output style, whether to be quiet,
/// the state directory and the config file.
#[derive(Debug, Clone)]
pub struct Context {
    pub style: Style,
    pub quiet: bool,
    pub state_dir: String,
    pub config_path: String,
    pub json: bool,
}

impl Context {
    pub fn new(use_color: bool, quiet: bool, state_dir: String, config_path: String) -> (c: Self)
        ensures
            c.style.colored() == use_color,
            c.quiet == quiet,
            c.state_dir@ == state_dir@,
            c.config_path@ == config_path@,
            !c.json,
    {
        Context { style: Style::new(use_color), quiet, state_dir, config_path, json: false }
    }
}

/// Colors are used unless `NO_COLOR` is set or the terminal is `dumb`.
pub fn supports_color(no_color_set: bool, term: Option<&str>) -> (b: bool)
    ensures
        b == (!no_color_set && match term {
            Some(t) => t@ != "dumb"@,
            None => true,
        }),
{
    if no_color_set {
        return false;
    }
    match term {
        Some(t) => {
            let a = crate::text::chars_of(t);
            let b = crate::text::chars_of("dumb");
            !crate::text::chars_eq(a.as_slice(), b.as_slice())
        },
        None => true,
    }
}

/// Whether the hidden background server may run: only on Windows.
pub fn background_serve_allowed(os: TargetOs) -> (r: Result<(), CliError>)
    ensures
        os == TargetOs::Windows ==> r is Ok,
        os != TargetOs::Windows ==> (r matches Err(e) && e.is_config(
            "background-serve is only supported on Windows"@,
        )),
{
    if os == TargetOs::Windows {
        Ok(())
    } else {
        Err(CliError::Config("background-serve is only supported on Windows".to_string()))
    }
}

} // verus!
