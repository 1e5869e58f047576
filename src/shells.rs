//! Shell integration code: templates of shell functions that call back into
//! the `sv` binary and apply what it prints to the calling shell's environment.

use vstd::prelude::*;

verus! {

/// The concatenation of `parts`, with `path` between each two neighbours.
pub open spec fn joined(parts: Seq<&str>, path: Seq<char>) -> Seq<char>
    decreases parts.len(),
{
    if parts.len() == 0 {
        Seq::empty()
    } else if parts.len() == 1 {
        parts[0]@
    } else {
        joined(parts.drop_last(), path) + path + parts.last()@
    }
}

/// Renders a template: its literal parts with the binary path between them.
pub fn render_template(parts: &Vec<&str>, sv_path: &str) -> (r: String)
    ensures
        r@ == joined(parts@, sv_path@),
{
    let mut out = String::new();
    if parts.len() == 0 {
        return out;
    }
    out.append(parts[0]);
    let mut i: usize = 1;
    while i < parts.len()
        invariant
            1 <= i <= parts@.len(),
            out@ == joined(parts@.take(i as int), sv_path@),
        decreases parts@.len() - i,
    {
        assert(parts@.take(i as int + 1).drop_last() =~= parts@.take(i as int));
        out.append(sv_path);
        out.append(parts[i]);
        i = i + 1;
    }
    assert(parts@.take(i as int) =~= parts@);
    out
}

/// Every rendered template with at least two parts holds the binary path verbatim,
/// right after its first part.
pub proof fn lemma_joined_contains_path(parts: Seq<&str>, path: Seq<char>)
    requires
        parts.len() >= 2,
    ensures
        joined(parts, path).len() >= parts[0]@.len() + path.len() as int,
        joined(parts, path).subrange(
            parts[0]@.len() as int,
            parts[0]@.len() + path.len() as int,
        ) == path,
    decreases parts.len(),
{
    if parts.len() == 2 {
        let j = joined(parts, path);
        assert(parts.drop_last().len() == 1);
        assert(parts.drop_last()[0] == parts[0]);
        assert(joined(parts.drop_last(), path) == parts[0]@);
        assert(parts.last() == parts[1]);
        assert(j == parts[0]@ + path + parts[1]@);
        assert(j.subrange(parts[0]@.len() as int, parts[0]@.len() + path.len() as int) =~= path);
    } else {
        let d = parts.drop_last();
        lemma_joined_contains_path(d, path);
        assert(d[0] == parts[0]);
        let j = joined(parts, path);
        let k = joined(d, path);
        assert(j == k + path + parts.last()@);
        assert(j.subrange(parts[0]@.len() as int, parts[0]@.len() + path.len() as int)
            =~= k.subrange(parts[0]@.len() as int, parts[0]@.len() + path.len() as int));
    }
}

/// Whether `needle` occurs in `hay` as a contiguous run.
pub open spec fn contains_run(hay: Seq<char>, needle: Seq<char>) -> bool {
    exists|i: int| 0 <= i && i + needle.len() <= hay.len()
        && #[trigger] hay.subrange(i, i + needle.len()) == needle
}

/// The shell families for which integration code can be generated.
#[derive(Clone, Copy, Debug, PartialEq, Eq)]
pub enum ShellFamily {
    /// sh and POSIX-y shells such as Bash and Zsh
    Sh,
    /// Nushell
    Nu,
}

pub const POSIX_TEXT_0: &'static str = r#"sv() {
    if [ "$1" = "set" ]
    then
        if [ "$#" != 3 ]
        then
            echo "Expected 2 arguments: variable name and value"
        fi
        export $2="$3"
        "#;

pub const POSIX_TEXT_1: &'static str = r#" set "$2" "$3"
    elif [ "$1" = "load" ]
    then
        if [ "$#" = 1 ]
        then
            # Load all variables
            while IFS= read -r line
            do
                # Hopefully this doesn't overwrite existing variables called _stickyvar_name/value
                # Worth considering local - it's not part of POSIX but most shells support it
                _stickyvar_name="$(echo $line | cut -d '=' -f 1)"
                _stickyvar_value="$(echo $line | cut -d '=' -f 2-)"
                _stickyvar_value="$("#;

pub const POSIX_TEXT_2: &'static str = r#" decode-value "$_stickyvar_value")"
                export $_stickyvar_name="$_stickyvar_value"
                echo "Set $_stickyvar_name to $_stickyvar_value"
            done << EOF
`"#;

pub const POSIX_TEXT_3: &'static str = r#" get-all`
EOF
            # We have to use redirection rather than a pipe because
            # a pipe would make the while loop run in a subprocess, meaning
            # environment variables wouldn't be affected in the current process
        elif [ "$#" = 2 ]
        then
            # Load only the given variable
            _stickyvar_value="$("#;

pub const POSIX_TEXT_4: &'static str = r#" get "$2")"
            export $2="$_stickyvar_value"
            echo "Set $2 to $_stickyvar_value"
        else
            echo "Expected either no arguments (to load all variables) or 1 argument (name of single variable to load)"
        fi
    elif [ "$1" = "list" ]
    then
        if [ "$#" != 1 ]
        then
            echo "Expected no arguments"
        fi
        "#;

pub const POSIX_TEXT_5: &'static str = r#" list
    elif [ "$1" = "delete" ]
    then
        if [ "$#" != 2 ]
        then
            echo "Expected 1 argument (name of variable to delete)"
        fi
        "#;

pub const POSIX_TEXT_6: &'static str = r#" delete "$2" && unset "$2"
    else
        echo "Subcommands: set NAME VALUE, load [NAME], list, delete NAME"
    fi
}
"#;

pub const NUSHELL_TEXT_0: &'static str = r#"export module sv {
    # Set a variable, both as an environment variable and in the sticky variable database
    export def --env set [name: string, value: string] {
        load-env { $name: $value }
        "#;

pub const NUSHELL_TEXT_1: &'static str = r#" set $name $value
    }

    # If given a variable name, load that variable. Otherwise, load all variables
    # in database.
    export def --env load [ name?: string ] {
        if $name != (null) {
            let value = "#;

pub const NUSHELL_TEXT_2: &'static str = r#" get $name
            print $"Setting ($name) to ($value)"
            load-env { $name: $value }
        } else {
            for var in ("#;

pub const NUSHELL_TEXT_3: &'static str = r#" get-all | lines) {
                let parts = $var | split row -n 2 "="
                let name = $parts.0
                let value = "#;

pub const NUSHELL_TEXT_4: &'static str = r#" decode-value $parts.1
                print $"Setting ($name) to ($value)"
                load-env { $name: $value }
            }
        }
    }

    export def --env delete [ name: string ] {
        "#;

pub const NUSHELL_TEXT_5: &'static str = r#" delete $name
        hide-env $name
    }

    # Open the database of variables and return a table containing each
    # variable's name, value, and modified time (in seconds since Unix epoch)
    export def --env list [] {
        open ("#;

pub const NUSHELL_TEXT_6: &'static str = r#" db-path)
    }
}
"#;

/// The literal parts of the POSIX shell template.
pub open spec fn posix_parts() -> Seq<&'static str> {
    seq![POSIX_TEXT_0, POSIX_TEXT_1, POSIX_TEXT_2, POSIX_TEXT_3, POSIX_TEXT_4, POSIX_TEXT_5, POSIX_TEXT_6]
}

/// The literal parts of the Nushell template.
pub open spec fn nushell_parts() -> Seq<&'static str> {
    seq![NUSHELL_TEXT_0, NUSHELL_TEXT_1, NUSHELL_TEXT_2, NUSHELL_TEXT_3, NUSHELL_TEXT_4, NUSHELL_TEXT_5, NUSHELL_TEXT_6]
}

/// The POSIX shell integration code for a binary at `path`.
pub open spec fn posix_script(path: Seq<char>) -> Seq<char> {
    joined(posix_parts(), path)
}

/// The Nushell integration code for a binary at `path`.
pub open spec fn nushell_script(path: Seq<char>) -> Seq<char> {
    joined(nushell_parts(), path)
}

/// The integration code for `family` and a binary at `path`.
pub open spec fn script_for(family: ShellFamily, path: Seq<char>) -> Seq<char> {
    match family {
        ShellFamily::Sh => posix_script(path),
        ShellFamily::Nu => nushell_script(path),
    }
}

/// Setup code for POSIX-compliant shells
pub fn init_posix(sv_path: &str) -> (r: String)
    ensures
        r@ == posix_script(sv_path@),
{
    let mut parts: Vec<&str> = Vec::new();
    parts.push(POSIX_TEXT_0);
    parts.push(POSIX_TEXT_1);
    parts.push(POSIX_TEXT_2);
    parts.push(POSIX_TEXT_3);
    parts.push(POSIX_TEXT_4);
    parts.push(POSIX_TEXT_5);
    parts.push(POSIX_TEXT_6);
    assert(parts@ == posix_parts());
    render_template(&parts, sv_path)
}

/// Setup code for Nushell
pub fn init_nushell(sv_path: &str) -> (r: String)
    ensures
        r@ == nushell_script(sv_path@),
{
    let mut parts: Vec<&str> = Vec::new();
    parts.push(NUSHELL_TEXT_0);
    parts.push(NUSHELL_TEXT_1);
    parts.push(NUSHELL_TEXT_2);
    parts.push(NUSHELL_TEXT_3);
    parts.push(NUSHELL_TEXT_4);
    parts.push(NUSHELL_TEXT_5);
    parts.push(NUSHELL_TEXT_6);
    assert(parts@ == nushell_parts());
    render_template(&parts, sv_path)
}

/// Setup code for the given shell family.
pub fn render(family: ShellFamily, sv_path: &str) -> (r: String)
    ensures
        r@ == script_for(family, sv_path@),
{
    match family {
        ShellFamily::Sh => init_posix(sv_path),
        ShellFamily::Nu => init_nushell(sv_path),
    }
}

/// The code generated for every shell family holds, verbatim, the path of the
/// binary that its functions invoke.
pub proof fn lemma_script_contains_path(family: ShellFamily, path: Seq<char>)
    ensures
        contains_run(script_for(family, path), path),
{
    let parts = match family {
        ShellFamily::Sh => posix_parts(),
        ShellFamily::Nu => nushell_parts(),
    };
    lemma_joined_contains_path(parts, path);
    let s = script_for(family, path);
    assert(s.subrange(parts[0]@.len() as int, parts[0]@.len() + path.len() as int) == path);
}

} // verus!
