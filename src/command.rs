//! Synthesis of the shell command that scaffolds a project.
//!
//! Each project type has one fixed template per shell family. The name and the
//! folder are substituted into it; a value made of anything but ASCII letters,
//! digits, `_` and `-` is quoted for the target shell, so that it stays one
//! word and cannot change the command around it.
use vstd::prelude::*;
use crate::app::ProjectTypes;
use crate::text::push_char;

verus! {

/// The shell family the command is written for.
#[derive(Clone, Copy, Debug, PartialEq, Eq, Structural)]
pub enum Platform {
    /// A POSIX shell, run as `bash -c <command>`.
    Posix,
    /// PowerShell, run as `powershell -Command <command>`.
    Windows,
}

// The fixed text of the POSIX templates, between the substituted values.
pub const POSIX_MKDIR: &'static str = "mkdir ";
pub const POSIX_CD: &'static str = " && cd ";
pub const POSIX_PY_README: &'static str = " && python3 -m venv .venv && echo '# ";
pub const POSIX_PY_REST: &'static str = "' > README.md && mkdir src && cd src && echo 'def main():\n  print(\"Hello, World!\")' > main.py && cd .. && source .venv/bin/activate";
pub const POSIX_CPP_README: &'static str = " && echo '# ";
pub const POSIX_CPP_SOURCES: &'static str = "' > README.md && mkdir src && cd src && echo '#include <iostream>' > main.cpp && echo 'int main() {' >> main.cpp && echo '    std::cout << \"Hello, World!\" << std::endl;' >> main.cpp && echo '    return 0;' >> main.cpp && echo '}' >> main.cpp && cd .. && echo 'cmake_minimum_required(VERSION 3.10)' > CMakeLists.txt && echo 'project(";
pub const POSIX_CPP_REST: &'static str = ")' >> CMakeLists.txt && echo 'set(CMAKE_CXX_STANDARD 17)' >> CMakeLists.txt && echo 'set(CMAKE_CXX_STANDARD_REQUIRED ON)' >> CMakeLists.txt && echo 'add_executable(${PROJECT_NAME} src/main.cpp)' >> CMakeLists.txt";

// The fixed text of the PowerShell templates, between the substituted values.
pub const WIN_MKDIR: &'static str = "New-Item -ItemType Directory -Name ";
pub const WIN_CD: &'static str = " -Force; Set-Location ";
pub const WIN_PY_README: &'static str = "; python3 -m venv .venv; '# ";
pub const WIN_PY_REST: &'static str = "' | Out-File -FilePath README.md -Encoding UTF8; New-Item -ItemType Directory -Name src -Force; Set-Location src; 'def main():' | Out-File -FilePath main.py -Encoding UTF8; '    print(\"Hello, World!\")' | Add-Content -Path main.py; '' | Add-Content -Path main.py; 'main()' | Add-Content -Path main.py; Set-Location ..; .venv\\Scripts\\Activate.ps1";
pub const WIN_CPP_README: &'static str = "; '# ";
pub const WIN_CPP_SOURCES: &'static str = "' | Out-File -FilePath README.md -Encoding UTF8; New-Item -ItemType Directory -Name src -Force; Set-Location src; '#include <iostream>' | Out-File -FilePath main.cpp -Encoding UTF8; 'int main() {' | Add-Content -Path main.cpp; '    std::cout << \"Hello, World!\" << std::endl;' | Add-Content -Path main.cpp; '    return 0;' | Add-Content -Path main.cpp; '}' | Add-Content -Path main.cpp; Set-Location ..; 'cmake_minimum_required(VERSION 3.10)' | Out-File -FilePath CMakeLists.txt -Encoding UTF8; 'project(";
pub const WIN_CPP_REST: &'static str = " CXX)' | Add-Content -Path CMakeLists.txt; 'set(CMAKE_CXX_STANDARD 17)' | Add-Content -Path CMakeLists.txt; 'set(CMAKE_CXX_STANDARD_REQUIRED ON)' | Add-Content -Path CMakeLists.txt; 'if(WIN32)' | Add-Content -Path CMakeLists.txt; '    set(CMAKE_CXX_FLAGS \"${CMAKE_CXX_FLAGS} -fexceptions\")' | Add-Content -Path CMakeLists.txt; '    set(CMAKE_C_FLAGS \"${CMAKE_C_FLAGS} -fexceptions\")' | Add-Content -Path CMakeLists.txt; 'endif()' | Add-Content -Path CMakeLists.txt; 'add_executable(${PROJECT_NAME} src/main.cpp)' | Add-Content -Path CMakeLists.txt";

// The fixed text of the two templates that delegate to a project tool.
pub const UV_NAME: &'static str = "uv init --name ";
pub const UV_REST: &'static str = " --vcs git --app --no-description --author-from git ";
pub const CARGO_NAME: &'static str = "cargo new --name ";
pub const CARGO_REST: &'static str = " --vcs git --bin --edition 2024 ";

/// The POSIX spelling of a single quote inside a single-quoted word.
pub const POSIX_QUOTE_ESCAPE: &'static str = "'\\''";

/// A character that stands unquoted in a command.
pub open spec fn plain_char(c: char) -> bool {
    ('a' <= c && c <= 'z') || ('A' <= c && c <= 'Z') || ('0' <= c && c <= '9') || c == '_'
        || c == '-'
}

/// A value that is substituted as it is: not empty, and plain throughout.
pub open spec fn is_plain(s: Seq<char>) -> bool {
    s.len() > 0 && forall|i: int| 0 <= i < s.len() ==> plain_char(#[trigger] s[i])
}

/// A character that PowerShell reads as a single quote.
pub open spec fn powershell_quote(c: char) -> bool {
    c == '\'' || c == '\u{2018}' || c == '\u{2019}' || c == '\u{201A}' || c == '\u{201B}'
}

/// How one character is written inside a single-quoted word.
pub open spec fn escaped_char(c: char, p: Platform) -> Seq<char> {
    match p {
        Platform::Posix => if c == '\'' {
            POSIX_QUOTE_ESCAPE@
        } else {
            seq![c]
        },
        Platform::Windows => if powershell_quote(c) {
            seq![c, c]
        } else {
            seq![c]
        },
    }
}

/// The text of `s` as it is written inside a single-quoted word.
pub open spec fn escaped(s: Seq<char>, p: Platform) -> Seq<char>
    decreases s.len(),
{
    if s.len() == 0 {
        Seq::empty()
    } else {
        escaped(s.drop_last(), p) + escaped_char(s.last(), p)
    }
}

/// `s` as one word of a command: as it is when plain, else single-quoted.
pub open spec fn shell_word(s: Seq<char>, p: Platform) -> Seq<char> {
    if is_plain(s) {
        s
    } else {
        seq!['\''] + escaped(s, p) + seq!['\'']
    }
}

/// Creating `folder` and entering it.
pub open spec fn enter_folder(folder: Seq<char>, p: Platform) -> Seq<char> {
    match p {
        Platform::Posix => POSIX_MKDIR@ + shell_word(folder, p) + POSIX_CD@ + shell_word(folder, p),
        Platform::Windows => WIN_MKDIR@ + shell_word(folder, p) + WIN_CD@ + shell_word(folder, p),
    }
}

/// The command that scaffolds a project of type `t` called `name` in `folder`.
pub open spec fn scaffold_text(
    t: ProjectTypes,
    name: Seq<char>,
    folder: Seq<char>,
    p: Platform,
) -> Seq<char> {
    match t {
        ProjectTypes::Python => match p {
            Platform::Posix => enter_folder(folder, p) + POSIX_PY_README@ + escaped(name, p)
                + POSIX_PY_REST@,
            Platform::Windows => enter_folder(folder, p) + WIN_PY_README@ + escaped(name, p)
                + WIN_PY_REST@,
        },
        ProjectTypes::UvPython => UV_NAME@ + shell_word(name, p) + UV_REST@ + shell_word(folder, p),
        ProjectTypes::Rust => CARGO_NAME@ + shell_word(name, p) + CARGO_REST@ + shell_word(
            folder,
            p,
        ),
        ProjectTypes::CmakeCpp => match p {
            Platform::Posix => enter_folder(folder, p) + POSIX_CPP_README@ + escaped(name, p)
                + POSIX_CPP_SOURCES@ + escaped(name, p) + POSIX_CPP_REST@,
            Platform::Windows => enter_folder(folder, p) + WIN_CPP_README@ + escaped(name, p)
                + WIN_CPP_SOURCES@ + escaped(name, p) + WIN_CPP_REST@,
        },
    }
}

/// Whether `s` can be substituted without quotes.
fn plain_text(s: &str) -> (r: bool)
    ensures
        r == is_plain(s@),
{
    let n = s.unicode_len();
    if n == 0 {
        return false;
    }
    let mut i: usize = 0;
    while i < n
        invariant
            n == s@.len(),
            i <= n,
            forall|j: int| 0 <= j < i ==> plain_char(#[trigger] s@[j]),
        decreases n - i,
    {
        let c = s.get_char(i);
        if !(('a' <= c && c <= 'z') || ('A' <= c && c <= 'Z') || ('0' <= c && c <= '9') || c
            == '_' || c == '-') {
            return false;
        }
        i += 1;
    }
    true
}

/// Appends `c` as it is written inside a single-quoted word.
fn push_escaped_char(out: &mut String, c: char, p: Platform)
    ensures
        final(out)@ == old(out)@ + escaped_char(c, p),
{
    match p {
        Platform::Posix => {
            if c == '\'' {
                out.append(POSIX_QUOTE_ESCAPE);
            } else {
                push_char(out, c);
            }
        },
        Platform::Windows => {
            if c == '\'' || c == '\u{2018}' || c == '\u{2019}' || c == '\u{201A}' || c
                == '\u{201B}' {
                push_char(out, c);
            }
            push_char(out, c);
        },
    }
    assert(final(out)@ =~= old(out)@ + escaped_char(c, p));
}

/// Appends the text of `s` as it is written inside a single-quoted word.
fn push_escaped(out: &mut String, s: &str, p: Platform)
    ensures
        final(out)@ == old(out)@ + escaped(s@, p),
{
    let ghost start = out@;
    let n = s.unicode_len();
    let mut i: usize = 0;
    while i < n
        invariant
            n == s@.len(),
            i <= n,
            out@ == start + escaped(s@.subrange(0, i as int), p),
        decreases n - i,
    {
        let c = s.get_char(i);
        let ghost before = out@;
        push_escaped_char(out, c, p);
        proof {
            let pre = s@.subrange(0, i as int);
            let next = s@.subrange(0, i + 1);
            assert(next.drop_last() =~= pre);
            assert(next.last() == c);
            assert(out@ =~= start + escaped(next, p));
        }
        i += 1;
    }
    assert(s@.subrange(0, n as int) =~= s@);
}

/// Appends `s` as one word of a command.
fn push_word(out: &mut String, s: &str, p: Platform)
    ensures
        final(out)@ == old(out)@ + shell_word(s@, p),
{
    if plain_text(s) {
        out.append(s);
    } else {
        let ghost start = out@;
        push_char(out, '\'');
        push_escaped(out, s, p);
        push_char(out, '\'');
        assert(out@ =~= start + shell_word(s@, p));
    }
}

/// Appends the commands that create `folder` and enter it.
fn push_enter_folder(out: &mut String, folder: &str, p: Platform)
    ensures
        final(out)@ == old(out)@ + enter_folder(folder@, p),
{
    let ghost start = out@;
    match p {
        Platform::Posix => {
            out.append(POSIX_MKDIR);
            push_word(out, folder, p);
            out.append(POSIX_CD);
            push_word(out, folder, p);
        },
        Platform::Windows => {
            out.append(WIN_MKDIR);
            push_word(out, folder, p);
            out.append(WIN_CD);
            push_word(out, folder, p);
        },
    }
    assert(out@ =~= start + enter_folder(folder@, p));
}

/// The shell command that scaffolds a project of type `t` called `name` in
/// `folder`, for the shell family `p`.
pub fn scaffold_command(t: ProjectTypes, name: &str, folder: &str, p: Platform) -> (r: String)
    ensures
        r@ == scaffold_text(t, name@, folder@, p),
{
    let mut out = String::new();
    match t {
        ProjectTypes::Python => {
            push_enter_folder(&mut out, folder, p);
            match p {
                Platform::Posix => {
                    out.append(POSIX_PY_README);
                    push_escaped(&mut out, name, p);
                    out.append(POSIX_PY_REST);
                },
                Platform::Windows => {
                    out.append(WIN_PY_README);
                    push_escaped(&mut out, name, p);
                    out.append(WIN_PY_REST);
                },
            }
        },
        ProjectTypes::UvPython => {
            out.append(UV_NAME);
            push_word(&mut out, name, p);
            out.append(UV_REST);
            push_word(&mut out, folder, p);
        },
        ProjectTypes::Rust => {
            out.append(CARGO_NAME);
            push_word(&mut out, name, p);
            out.append(CARGO_REST);
            push_word(&mut out, folder, p);
        },
        ProjectTypes::CmakeCpp => {
            push_enter_folder(&mut out, folder, p);
            match p {
                Platform::Posix => {
                    out.append(POSIX_CPP_README);
                    push_escaped(&mut out, name, p);
                    out.append(POSIX_CPP_SOURCES);
                    push_escaped(&mut out, name, p);
                    out.append(POSIX_CPP_REST);
                },
                Platform::Windows => {
                    out.append(WIN_CPP_README);
                    push_escaped(&mut out, name, p);
                    out.append(WIN_CPP_SOURCES);
                    push_escaped(&mut out, name, p);
                    out.append(WIN_CPP_REST);
                },
            }
        },
    }
    assert(out@ =~= scaffold_text(t, name@, folder@, p));
    out
}

} // verus!
