//! Setup code for Nushell (without the `delete` command)

use vstd::prelude::*;
use crate::shells::{joined, render_template};

verus! {

pub const TEXT_0: &'static str = r#"export module sv {
    # Set a variable, both as an environment variable and in the sticky variable database
    export def --env set [name: string, value: string] {
        load-env { $name: $value }
        "#;

pub const TEXT_1: &'static str = r#" set $name $value
    }

    # If given a variable name, load that variable. Otherwise, load all variables
    # in database.
    export def --env load [ name?: string ] {
        if $name != (null) {
            let value = "#;

pub const TEXT_2: &'static str = r#" get $name
            print $"Setting ($name) to ($value)"
            load-env { $name: $value }
        } else {
            for var in ("#;

pub const TEXT_3: &'static str = r#" get-all | lines) {
                let parts = $var | split row -n 2 "="
                let name = $parts.0
                let value = "#;

pub const TEXT_4: &'static str = r#" decode-value $parts.1
                print $"Setting ($name) to ($value)"
                load-env { $name: $value }
            }
        }
    }

    # Open the database of variables and return a table containing each
    # variable's name, value, and modified time (in seconds since Unix epoch)
    export def --env list [] {
        open ("#;

pub const TEXT_5: &'static str = r#" db-path)
    }
}
"#;

/// The code this module generates for a binary at `path`.
pub open spec fn script(path: Seq<char>) -> Seq<char> {
    joined(seq![TEXT_0, TEXT_1, TEXT_2, TEXT_3, TEXT_4, TEXT_5], path)
}

/// The shell code for a binary at `sv_path`.
pub fn init(sv_path: &str) -> (r: String)
    ensures
        r@ == script(sv_path@),
{
    let mut parts: Vec<&str> = Vec::new();
    parts.push(TEXT_0);
    parts.push(TEXT_1);
    parts.push(TEXT_2);
    parts.push(TEXT_3);
    parts.push(TEXT_4);
    parts.push(TEXT_5);
    assert(parts@ == seq![TEXT_0, TEXT_1, TEXT_2, TEXT_3, TEXT_4, TEXT_5]);
    render_template(&parts, sv_path)
}

} // verus!
