//! The script that deciphers a scrambled signature: the decipher function
//! of the player script and the helper object it uses, cut out of the
//! player script and put together. Running it is left to a JavaScript
//! sandbox.
use vstd::prelude::*;
use crate::client::EngineError;
use crate::pattern::{
    regex_compile_error, regex_first_match, group, escaped, pattern_error, first_match, group_text,
    escape,
};
use crate::text::join;

verus! {

/// The pattern of the decipher function of a player script.
pub open spec fn decipher_fn_pattern() -> Seq<char> {
    "(?x)\n            (?P<func_name>[a-zA-Z0-9$]+)\\s*=\\s*function\\(\\s*(?P<param>[a-zA-Z0-9$]+)\\s*\\)\\s*\\{\n                \\s*(?P<param2>[a-zA-Z0-9$]+)=(?P=param)\\.split\\(\"\"\\);\\s*\n                (?P<body>.+?)\\s*\n                return\\s+(?P=param2)\\.join\\(\"\"\\)\n            \\}\n        "@
}

/// The pattern of a call on the helper object in the function body.
pub open spec fn helper_call_pattern() -> Seq<char> {
    "([a-zA-Z0-9$]+)\\.[a-zA-Z0-9$]+\\("@
}

/// The pattern of the definition of helper object `name`.
pub open spec fn helper_def_pattern(name: Seq<char>) -> Seq<char> {
    "(?x)\n            var\\s+"@ + escaped(name) + "=\\{\n                [\\s\\S]*?\n            \\};\n        "@
}

/// Group `i` of a match, or `default`.
pub open spec fn group_or(g: Seq<Option<Seq<char>>>, i: int, default: Seq<char>) -> Seq<char> {
    match group(g, i) {
        Some(s) => s,
        None => default,
    }
}

/// The script to run and the function in it to call.
pub struct DecipherPlan {
    pub script: String,
    pub function: String,
}

/// The plain content of a [`DecipherPlan`].
pub struct DecipherPlanView {
    pub script: Seq<char>,
    pub function: Seq<char>,
}

impl View for DecipherPlan {
    type V = DecipherPlanView;

    open spec fn view(&self) -> DecipherPlanView {
        DecipherPlanView { script: self.script@, function: self.function@ }
    }
}

/// The deciphering script: the helper definition, then the decipher function
/// rebuilt under its own name from its parameters and body.
pub open spec fn plan_script(
    helper_def: Seq<char>,
    func: Seq<char>,
    param: Seq<char>,
    param2: Seq<char>,
    body: Seq<char>,
) -> Seq<char> {
    helper_def + "\nvar "@ + func + " = function("@ + param + ") {\n var "@ + param2 + "="@ + param
        + ".split(\"\");\n "@ + body + "\n return "@ + param2 + ".join(\"\");\n};"@
}

/// The plan that deciphers with the player script `js`, or the text of the
/// OS API error that stops it: a pattern that does not compile, no decipher
/// function, or no helper call in its body. A missing helper definition
/// leaves it out of the script.
pub open spec fn decipher_plan_spec(js: Seq<char>) -> Result<DecipherPlanView, Seq<char>> {
    match regex_compile_error(decipher_fn_pattern()) {
        Some(m) => Err(m),
        None => match regex_first_match(decipher_fn_pattern(), js) {
            None => Err("Failed to find decipher function block in JS payload"@),
            Some(g) => {
                let func = group_or(g, 1, "decipherFn"@);
                let param = group_or(g, 2, "a"@);
                let param2 = group_or(g, 3, "a"@);
                let body = group_or(g, 4, ""@);
                match regex_compile_error(helper_call_pattern()) {
                    Some(m) => Err(m),
                    None => match regex_first_match(helper_call_pattern(), body) {
                        None => Err("Failed to find bound helper object in decipher function body"@),
                        Some(h) => {
                            let def_pattern = helper_def_pattern(group_or(h, 1, "helperObj"@));
                            match regex_compile_error(def_pattern) {
                                Some(m) => Err(m),
                                None => {
                                    let def = match regex_first_match(def_pattern, js) {
                                        Some(d) => group_or(d, 0, ""@),
                                        None => Seq::empty(),
                                    };
                                    Ok(
                                        DecipherPlanView {
                                            script: plan_script(def, func, param, param2, body),
                                            function: func,
                                        },
                                    )
                                },
                            }
                        },
                    },
                }
            },
        },
    }
}

/// Group `i` of a match as a string, or `default`.
fn group_or_of(g: &Vec<Option<String>>, i: usize, default: &str) -> (r: String)
    ensures
        r@ == group_or(crate::pattern::groups_view(g@), i as int, default@),
{
    match group_text(g, i) {
        Some(s) => s,
        None => String::from_str(default),
    }
}

/// The first match of a pattern, or the text of the pattern's error.
fn search(pattern: &str, text: &str) -> (r: Result<Option<Vec<Option<String>>>, String>)
    ensures
        match r {
            Ok(Some(g)) => regex_compile_error(pattern@) is None && regex_first_match(pattern@, text@)
                == Some(crate::pattern::groups_view(g@)),
            Ok(None) => regex_compile_error(pattern@) is None && regex_first_match(pattern@, text@) is None,
            Err(m) => regex_compile_error(pattern@) == Some(m@),
        },
{
    match pattern_error(pattern) {
        Some(m) => Err(m),
        None => Ok(first_match(pattern, text)),
    }
}

/// The pattern that finds the definition of helper object `name` (see
/// [`helper_def_pattern`]); the name is escaped for the pattern.
pub fn helper_definition_pattern(name: &str) -> (r: String)
    ensures
        r@ == helper_def_pattern(name@),
{
    let esc = escape(name);
    join("(?x)\n            var\\s+", esc.as_str()).concat(
        "=\\{\n                [\\s\\S]*?\n            \\};\n        ",
    )
}

/// Deciphers scrambled signatures with the help of a JavaScript sandbox.
pub struct JsDecipher;

impl JsDecipher {
    /// A decipherer.
    pub fn new() -> (r: Self) {
        JsDecipher
    }

    /// The script that deciphers with player script `js` (see
    /// [`decipher_plan_spec`]).
    pub fn decipher_plan(&self, js: &str) -> (r: Result<DecipherPlan, EngineError>)
        ensures
            match r {
                Ok(p) => decipher_plan_spec(js@) == Ok::<DecipherPlanView, Seq<char>>(p@),
                Err(e) => e matches EngineError::OsApiError(m) && decipher_plan_spec(js@) == Err::<
                    DecipherPlanView,
                    Seq<char>,
                >(m@),
            },
    {
        let main = "(?x)\n            (?P<func_name>[a-zA-Z0-9$]+)\\s*=\\s*function\\(\\s*(?P<param>[a-zA-Z0-9$]+)\\s*\\)\\s*\\{\n                \\s*(?P<param2>[a-zA-Z0-9$]+)=(?P=param)\\.split\\(\"\"\\);\\s*\n                (?P<body>.+?)\\s*\n                return\\s+(?P=param2)\\.join\\(\"\"\\)\n            \\}\n        ";
        let g = match search(main, js) {
            Err(m) => {
                return Err(EngineError::OsApiError(m));
            },
            Ok(None) => {
                return Err(
                    EngineError::OsApiError(
                        String::from_str("Failed to find decipher function block in JS payload"),
                    ),
                );
            },
            Ok(Some(g)) => g,
        };
        let func = group_or_of(&g, 1, "decipherFn");
        let param = group_or_of(&g, 2, "a");
        let param2 = group_or_of(&g, 3, "a");
        let body = group_or_of(&g, 4, "");
        let h = match search("([a-zA-Z0-9$]+)\\.[a-zA-Z0-9$]+\\(", body.as_str()) {
            Err(m) => {
                return Err(EngineError::OsApiError(m));
            },
            Ok(None) => {
                return Err(
                    EngineError::OsApiError(
                        String::from_str("Failed to find bound helper object in decipher function body"),
                    ),
                );
            },
            Ok(Some(h)) => h,
        };
        let name = group_or_of(&h, 1, "helperObj");
        let def_pattern = helper_definition_pattern(name.as_str());
        let def = match search(def_pattern.as_str(), js) {
            Err(m) => {
                return Err(EngineError::OsApiError(m));
            },
            Ok(None) => String::new(),
            Ok(Some(d)) => group_or_of(&d, 0, ""),
        };
        let script = def.concat("\nvar ").concat(func.as_str()).concat(" = function(").concat(
            param.as_str(),
        ).concat(") {\n var ").concat(param2.as_str()).concat("=").concat(param.as_str()).concat(
            ".split(\"\");\n ",
        ).concat(body.as_str()).concat("\n return ").concat(param2.as_str()).concat(
            ".join(\"\");\n};",
        );
        Ok(DecipherPlan { script, function: func })
    }
}

/// The call that runs `target_fn` on `argument` in the sandbox:
/// `target_fn("argument");`.
pub fn execution_call(target_fn: &str, argument: &str) -> (r: String)
    ensures
        r@ == target_fn@ + "(\""@ + argument@ + "\");"@,
{
    join(target_fn, "(\"").concat(argument).concat("\");")
}

} // verus!
