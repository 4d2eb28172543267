use project_wizard::{scaffold_command, Platform, ProjectTypes};

#[test]
fn rust_command_on_both_platforms() {
    let expected = "cargo new --name demo --vcs git --bin --edition 2024 demo";
    assert_eq!(scaffold_command(ProjectTypes::Rust, "demo", "demo", Platform::Posix), expected);
    assert_eq!(scaffold_command(ProjectTypes::Rust, "demo", "demo", Platform::Windows), expected);
}

#[test]
fn uv_command_passes_name_and_folder() {
    assert_eq!(
        scaffold_command(ProjectTypes::UvPython, "tool", "tools-dir", Platform::Posix),
        "uv init --name tool --vcs git --app --no-description --author-from git tools-dir"
    );
}

#[test]
fn posix_python_command() {
    assert_eq!(
        scaffold_command(ProjectTypes::Python, "demo", "work", Platform::Posix),
        "mkdir work && cd work && python3 -m venv .venv && echo '# demo' > README.md && mkdir src && cd src && echo 'def main():\n  print(\"Hello, World!\")' > main.py && cd .. && source .venv/bin/activate"
    );
}

#[test]
fn windows_python_command() {
    assert_eq!(
        scaffold_command(ProjectTypes::Python, "demo", "work", Platform::Windows),
        "New-Item -ItemType Directory -Name work -Force; Set-Location work; python3 -m venv .venv; '# demo' | Out-File -FilePath README.md -Encoding UTF8; New-Item -ItemType Directory -Name src -Force; Set-Location src; 'def main():' | Out-File -FilePath main.py -Encoding UTF8; '    print(\"Hello, World!\")' | Add-Content -Path main.py; '' | Add-Content -Path main.py; 'main()' | Add-Content -Path main.py; Set-Location ..; .venv\\Scripts\\Activate.ps1"
    );
}

#[test]
fn posix_cmake_command() {
    assert_eq!(
        scaffold_command(ProjectTypes::CmakeCpp, "app", "cpp", Platform::Posix),
        "mkdir cpp && cd cpp && echo '# app' > README.md && mkdir src && cd src && echo '#include <iostream>' > main.cpp && echo 'int main() {' >> main.cpp && echo '    std::cout << \"Hello, World!\" << std::endl;' >> main.cpp && echo '    return 0;' >> main.cpp && echo '}' >> main.cpp && cd .. && echo 'cmake_minimum_required(VERSION 3.10)' > CMakeLists.txt && echo 'project(app)' >> CMakeLists.txt && echo 'set(CMAKE_CXX_STANDARD 17)' >> CMakeLists.txt && echo 'set(CMAKE_CXX_STANDARD_REQUIRED ON)' >> CMakeLists.txt && echo 'add_executable(${PROJECT_NAME} src/main.cpp)' >> CMakeLists.txt"
    );
}

#[test]
fn windows_cmake_command() {
    let c = scaffold_command(ProjectTypes::CmakeCpp, "app", "cpp", Platform::Windows);
    assert!(c.starts_with("New-Item -ItemType Directory -Name cpp -Force; Set-Location cpp; '# app' | Out-File -FilePath README.md -Encoding UTF8;"));
    assert!(c.contains("'project(app CXX)' | Add-Content -Path CMakeLists.txt;"));
    assert!(c.contains("-fexceptions"));
    assert!(c.ends_with("'add_executable(${PROJECT_NAME} src/main.cpp)' | Add-Content -Path CMakeLists.txt"));
}

#[test]
fn values_with_spaces_are_quoted() {
    assert_eq!(
        scaffold_command(ProjectTypes::Rust, "my app", "a;rm -rf x", Platform::Posix),
        "cargo new --name 'my app' --vcs git --bin --edition 2024 'a;rm -rf x'"
    );
}

#[test]
fn posix_quote_is_escaped() {
    assert_eq!(
        scaffold_command(ProjectTypes::Rust, "it's", "d", Platform::Posix),
        "cargo new --name 'it'\\''s' --vcs git --bin --edition 2024 d"
    );
    let c = scaffold_command(ProjectTypes::Python, "it's", "d", Platform::Posix);
    assert!(c.contains("echo '# it'\\''s' > README.md"));
}

#[test]
fn windows_quote_is_doubled() {
    assert_eq!(
        scaffold_command(ProjectTypes::UvPython, "it's", "x y", Platform::Windows),
        "uv init --name 'it''s' --vcs git --app --no-description --author-from git 'x y'"
    );
    let c = scaffold_command(ProjectTypes::CmakeCpp, "a\u{2019}b", "d", Platform::Windows);
    assert!(c.contains("'project(a\u{2019}\u{2019}b CXX)'"));
}

#[test]
fn empty_value_becomes_empty_quotes() {
    assert_eq!(
        scaffold_command(ProjectTypes::Rust, "", "d", Platform::Posix),
        "cargo new --name '' --vcs git --bin --edition 2024 d"
    );
}

#[test]
fn non_ascii_value_is_quoted() {
    assert_eq!(
        scaffold_command(ProjectTypes::Rust, "héllo", "d", Platform::Posix),
        "cargo new --name 'héllo' --vcs git --bin --edition 2024 d"
    );
}
