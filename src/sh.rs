//! Setup code for POSIX-y shells (without the `delete` subcommand)

use vstd::prelude::*;
use crate::shells::{joined, render_template};

verus! {

pub const TEXT_0: &'static str = r#"sv() {
    if [ "$1" = "set" ]
    then
        if [ "$#" != 3 ]
        then
            echo "Expected 2 arguments: variable name and value"
        fi
        export $2="$3"
        "#;

pub const TEXT_1: &'static str = r#" set "$2" "$3"
    elif [ "$1" = "load" ]
    then
        if [ "$#" = 1 ]
        then
            while IFS= read -r line
                do
                    # Hopefully this doesn't overwrite existing variables called _stickyvar_name/value
                    # Worth considering local - it's not part of POSIX but most shells support it
                    _stickyvar_name="$(echo $line | cut -d '=' -f 1)"
                    _stickyvar_value="$(echo $line | cut -d '=' -f 2-)"
                    _stickyvar_value="$("#;

pub const TEXT_2: &'static str = r#" decode-value "$_stickyvar_value")"
                    export $_stickyvar_name="$_stickyvar_value"
                    echo "Set $_stickyvar_name to $_stickyvar_value"
                done << EOF
`"#;

pub const TEXT_3: &'static str = r#" get-all`
EOF
                # We have to use redirection rather than a pipe because
                # a pipe would make the while loop run in a subprocess, meaning
                # environment variables wouldn't be affected in the current process
        elif [ "$#" = 2 ]
        then
            _stickyvar_value="$("#;

pub const TEXT_4: &'static str = r#" get "$2")"
            export $2="$_stickyvar_value"
            echo "Set $2 to $_stickyvar_value"
        else
            echo "Expected either no arguments (to load all variables) or 1 argument (name of single variable to load)"
        fi
    elif [ "$1" = "list" ]
    then
        if [ "$#" != 1 ]
        then
            echo "Expected no arguments"
        fi
        "#;

pub const TEXT_5: &'static str = r#" list
    else
        echo "Subcommands: set NAME VALUE, load [NAME], list"
    fi
}
"#;

/// The code this module generates for a binary at `path`.
pub open spec fn script(path: Seq<char>) -> Seq<char> {
    joined(seq![TEXT_0, TEXT_1, TEXT_2, TEXT_3, TEXT_4, TEXT_5], path)
}

/// The shell code for a binary at `sv_path`.
pub fn init(sv_path: &str) -> (r: String)
    ensures
        r@ == script(sv_path@),
{
    let mut parts: Vec<&str> = Vec::new();
    parts.push(TEXT_0);
    parts.push(TEXT_1);
    parts.push(TEXT_2);
    parts.push(TEXT_3);
    parts.push(TEXT_4);
    parts.push(TEXT_5);
    assert(parts@ == seq![TEXT_0, TEXT_1, TEXT_2, TEXT_3, TEXT_4, TEXT_5]);
    render_template(&parts, sv_path)
}

} // verus!
