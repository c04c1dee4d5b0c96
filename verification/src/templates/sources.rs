//! The texts of the templates that come with the library, and the names
//! they are registered under.

use vstd::prelude::*;

verus! {

/// The entry point of a program.
pub const MAIN_CPP: &'static str = r#"#include <iostream>

int main() {
    std::cout << "Hello from {{name}}!" << std::endl;
    return 0;
}
"#;

/// The list file at the root of a CMake project.
pub const CMAKE_LISTS: &'static str = r#"cmake_minimum_required(VERSION 3.15)

project({{name}}
    VERSION {{version}}
    DESCRIPTION "{{{description}}}"
    LANGUAGES CXX
)

set(CMAKE_CXX_STANDARD {{cpp_standard}})
set(CMAKE_CXX_STANDARD_REQUIRED ON)
set(CMAKE_CXX_EXTENSIONS OFF)
set(CMAKE_EXPORT_COMPILE_COMMANDS ON)

include(cmake/options.cmake)
include(cmake/compilation-flags.cmake)

add_subdirectory(src)
{{#if is_library}}

if(BUILD_EXAMPLES)
    add_subdirectory(examples)
endif()
{{/if}}
{{#if enable_tests}}

if(BUILD_TESTS)
    enable_testing()
    add_subdirectory(tests)
endif()
{{/if}}
"#;

/// The switches of a CMake project.
pub const OPTIONS_CMAKE: &'static str = r#"option(ENABLE_WARNINGS "Compile with a strict set of warnings" ON)
option(WARNINGS_AS_ERRORS "Treat warnings as errors" OFF)
{{#if is_library}}
option(BUILD_SHARED_LIBS "Build {{name}} as a shared library" OFF)
option(BUILD_EXAMPLES "Build the examples of {{name}}" ON)
{{/if}}
{{#if enable_tests}}
option(BUILD_TESTS "Build the tests of {{name}}" ON)
{{/if}}

if(NOT CMAKE_BUILD_TYPE AND NOT CMAKE_CONFIGURATION_TYPES)
    set(CMAKE_BUILD_TYPE Release CACHE STRING "Build type" FORCE)
endif()
"#;

/// The compiler flags of a CMake project.
pub const COMPILATION_FLAGS_CMAKE: &'static str = r#"function(set_project_warnings target)
    if(NOT ENABLE_WARNINGS)
        return()
    endif()

    if(MSVC)
        set(PROJECT_WARNINGS /W4 /permissive-)
        if(WARNINGS_AS_ERRORS)
            list(APPEND PROJECT_WARNINGS /WX)
        endif()
    else()
        set(PROJECT_WARNINGS -Wall -Wextra -Wpedantic -Wshadow -Wconversion)
        if(WARNINGS_AS_ERRORS)
            list(APPEND PROJECT_WARNINGS -Werror)
        endif()
    endif()

    target_compile_options(${target} PRIVATE ${PROJECT_WARNINGS})
endfunction()
"#;

/// The list file of the source directory of a CMake project.
pub const SOURCE_CMAKE: &'static str = r#"{{#if is_library}}
add_library({{name}} lib.cpp)
target_include_directories({{name}} PUBLIC ${PROJECT_SOURCE_DIR}/include)
{{else}}
add_executable({{name}} main.cpp)
target_include_directories({{name}} PRIVATE ${PROJECT_SOURCE_DIR}/include)
{{/if}}
target_compile_features({{name}} PUBLIC cxx_std_{{cpp_standard}})
set_project_warnings({{name}})
"#;

/// The makefile of a project built with Make.
pub const MAKEFILE: &'static str = r#"CXX ?= g++
CXXFLAGS ?= -std=c++{{cpp_standard}} -Wall -Wextra -Wpedantic -O2
CPPFLAGS += -Iinclude

BUILD_DIR := build
{{#if is_library}}
TARGET := $(BUILD_DIR)/lib{{name}}.a
SOURCES := src/lib.cpp
EXAMPLE := $(BUILD_DIR)/example
{{else}}
TARGET := $(BUILD_DIR)/{{name}}
SOURCES := src/main.cpp
{{/if}}
OBJECTS := $(SOURCES:%.cpp=$(BUILD_DIR)/%.o)

.PHONY: all clean{{#if enable_tests}} test{{/if}}

{{#if is_library}}
all: $(TARGET) $(EXAMPLE)

$(TARGET): $(OBJECTS)
	$(AR) rcs $@ $^

$(EXAMPLE): examples/example.cpp $(TARGET)
	$(CXX) $(CPPFLAGS) $(CXXFLAGS) $< $(TARGET) -o $@
{{else}}
all: $(TARGET)

$(TARGET): $(OBJECTS)
	$(CXX) $(LDFLAGS) $^ -o $@
{{/if}}

$(BUILD_DIR)/%.o: %.cpp
	@mkdir -p $(dir $@)
	$(CXX) $(CPPFLAGS) $(CXXFLAGS) -c $< -o $@
{{#if enable_tests}}

test: all
	$(MAKE) -C tests test
{{/if}}

clean:
	rm -rf $(BUILD_DIR)
"#;

/// The public header of a library.
pub const HEADER_HPP: &'static str = r#"#pragma once

#include <string>

namespace {{namespace}} {

/// Returns the greeting of {{name}}.
std::string greeting();

/// Returns the version of {{name}}.
std::string version();

}  // namespace {{namespace}}
"#;

/// The implementation of a library.
pub const LIBRARY_CPP: &'static str = r#"#include "{{name}}.hpp"

namespace {{namespace}} {

std::string greeting() {
    return "Hello from {{name}}!";
}

std::string version() {
    return "{{version}}";
}

}  // namespace {{namespace}}
"#;

/// A program that uses the library.
pub const EXAMPLE_CPP: &'static str = r#"#include <iostream>

#include "{{name}}.hpp"

int main() {
    std::cout << {{namespace}}::greeting() << std::endl;
    std::cout << "Version " << {{namespace}}::version() << std::endl;
    return 0;
}
"#;

/// The list file of the examples of a library built with CMake.
pub const EXAMPLE_CMAKE: &'static str = r#"add_executable({{name}}_example example.cpp)
target_link_libraries({{name}}_example PRIVATE {{name}})
set_project_warnings({{name}}_example)
"#;

/// What git leaves alone.
pub const GITIGNORE: &'static str = r#"# Build output
build/
cmake-build-*/
out/
*.o
*.obj
*.a
*.lib
*.so
*.dylib
*.dll
*.exe

# CMake
CMakeCache.txt
CMakeFiles/
CMakeUserPresets.json
compile_commands.json

# Package managers
conan.lock
conanbuildinfo.*
vcpkg_installed/

# Editors
.vscode/
.idea/
*.swp
.DS_Store
"#;

/// The page that introduces the project.
pub const README_MD: &'static str = r#"# {{name}}

{{{description}}}

## Requirements

- A compiler with support for C++{{cpp_standard}}
{{#if (eq build_system "cmake")}}
- CMake 3.15 or later
{{else}}
- GNU Make
{{/if}}
{{#if (eq package_manager "conan")}}
- Conan 2
{{/if}}
{{#if (eq package_manager "vcpkg")}}
- vcpkg
{{/if}}

## Building

{{#if (eq build_system "cmake")}}
```sh
mkdir build && cd build
{{#if (eq package_manager "conan")}}
conan install .. --output-folder=. --build=missing
cmake .. -DCMAKE_TOOLCHAIN_FILE=./conan_toolchain.cmake
{{else}}
{{#if (eq package_manager "vcpkg")}}
cmake .. -DCMAKE_TOOLCHAIN_FILE=${VCPKG_ROOT}/scripts/buildsystems/vcpkg.cmake
{{else}}
cmake ..
{{/if}}
{{/if}}
cmake --build .
```
{{else}}
```sh
make
```
{{/if}}
{{#if enable_tests}}

## Testing

The tests are written with {{test_framework}}.

{{#if (eq build_system "cmake")}}
```sh
cd build
ctest --output-on-failure
```
{{else}}
```sh
make test
```
{{/if}}
{{/if}}
{{#if quality_config}}

## Code quality

{{#if (contains quality_config 'clang-tidy')}}
- clang-tidy reads `.clang-tidy`
{{/if}}
{{#if (contains quality_config 'cppcheck')}}
- cppcheck reads `cppcheck-suppressions.xml`
{{/if}}
{{#if (contains quality_config 'include-what-you-use')}}
- include-what-you-use checks the headers each file pulls in
{{/if}}
{{/if}}
{{#if code_formatter}}

## Formatting

{{#if (contains code_formatter 'clang-format')}}
- clang-format reads `.clang-format`
{{/if}}
{{#if (contains code_formatter 'cmake-format')}}
- cmake-format reads `cmake-format.yaml`
{{/if}}
{{/if}}

## Author

{{{author}}}
"#;

/// The dependencies of a project that uses Conan.
pub const CONANFILE_TXT: &'static str = r#"[requires]
{{#if (eq test_framework "doctest")}}
doctest/2.4.11
{{/if}}
{{#if (eq test_framework "gtest")}}
gtest/1.14.0
{{/if}}
{{#if (eq test_framework "catch2")}}
catch2/3.5.2
{{/if}}
{{#if (eq test_framework "boost")}}
boost/1.84.0
{{/if}}

[generators]
CMakeDeps
CMakeToolchain

[layout]
cmake_layout
"#;

/// The dependencies of a project that uses vcpkg.
pub const VCPKG_JSON: &'static str = r#"{
  "name": "{{name}}",
  "version-string": "{{version}}",
  "description": "{{{description}}}",
  "dependencies": [
{{#if (eq test_framework "doctest")}}
    "doctest"
{{/if}}
{{#if (eq test_framework "gtest")}}
    "gtest"
{{/if}}
{{#if (eq test_framework "catch2")}}
    "catch2"
{{/if}}
{{#if (eq test_framework "boost")}}
    "boost-test"
{{/if}}
  ]
}
"#;

/// The MIT license.
pub const LICENSE_MIT: &'static str = r#"MIT License

Copyright (c) {{year}} {{{author}}}

Permission is hereby granted, free of charge, to any person obtaining a copy
of this software and associated documentation files (the "Software"), to deal
in the Software without restriction, including without limitation the rights
to use, copy, modify, merge, publish, distribute, sublicense, and/or sell
copies of the Software, and to permit persons to whom the Software is
furnished to do so, subject to the following conditions:

The above copyright notice and this permission notice shall be included in all
copies or substantial portions of the Software.

THE SOFTWARE IS PROVIDED "AS IS", WITHOUT WARRANTY OF ANY KIND, EXPRESS OR
IMPLIED, INCLUDING BUT NOT LIMITED TO THE WARRANTIES OF MERCHANTABILITY,
FITNESS FOR A PARTICULAR PURPOSE AND NONINFRINGEMENT. IN NO EVENT SHALL THE
AUTHORS OR COPYRIGHT HOLDERS BE LIABLE FOR ANY CLAIM, DAMAGES OR OTHER
LIABILITY, WHETHER IN AN ACTION OF CONTRACT, TORT OR OTHERWISE, ARISING FROM,
OUT OF OR IN CONNECTION WITH THE SOFTWARE OR THE USE OR OTHER DEALINGS IN THE
SOFTWARE.
"#;

/// The notice that places a work under the GNU General Public License, version 3.
pub const LICENSE_GPL3: &'static str = r#"GNU GENERAL PUBLIC LICENSE
Version 3, 29 June 2007

{{name}} - {{{description}}}
Copyright (C) {{year}} {{{author}}}

This program is free software: you can redistribute it and/or modify
it under the terms of the GNU General Public License as published by
the Free Software Foundation, either version 3 of the License, or
(at your option) any later version.

This program is distributed in the hope that it will be useful,
but WITHOUT ANY WARRANTY; without even the implied warranty of
MERCHANTABILITY or FITNESS FOR A PARTICULAR PURPOSE.  See the
GNU General Public License for more details.

You should have received a copy of the GNU General Public License
along with this program.  If not, see <https://www.gnu.org/licenses/>.
"#;

/// The three-clause BSD license.
pub const LICENSE_BSD3: &'static str = r#"BSD 3-Clause License

Copyright (c) {{year}}, {{{author}}}

Redistribution and use in source and binary forms, with or without
modification, are permitted provided that the following conditions are met:

1. Redistributions of source code must retain the above copyright notice, this
   list of conditions and the following disclaimer.

2. Redistributions in binary form must reproduce the above copyright notice,
   this list of conditions and the following disclaimer in the documentation
   and/or other materials provided with the distribution.

3. Neither the name of the copyright holder nor the names of its
   contributors may be used to endorse or promote products derived from
   this software without specific prior written permission.

THIS SOFTWARE IS PROVIDED BY THE COPYRIGHT HOLDERS AND CONTRIBUTORS "AS IS"
AND ANY EXPRESS OR IMPLIED WARRANTIES, INCLUDING, BUT NOT LIMITED TO, THE
IMPLIED WARRANTIES OF MERCHANTABILITY AND FITNESS FOR A PARTICULAR PURPOSE ARE
DISCLAIMED. IN NO EVENT SHALL THE COPYRIGHT HOLDER OR CONTRIBUTORS BE LIABLE
FOR ANY DIRECT, INDIRECT, INCIDENTAL, SPECIAL, EXEMPLARY, OR CONSEQUENTIAL
DAMAGES (INCLUDING, BUT NOT LIMITED TO, PROCUREMENT OF SUBSTITUTE GOODS OR
SERVICES; LOSS OF USE, DATA, OR PROFITS; OR BUSINESS INTERRUPTION) HOWEVER
CAUSED AND ON ANY THEORY OF LIABILITY, WHETHER IN CONTRACT, STRICT LIABILITY,
OR TORT (INCLUDING NEGLIGENCE OR OTHERWISE) ARISING IN ANY WAY OUT OF THE USE
OF THIS SOFTWARE, EVEN IF ADVISED OF THE POSSIBILITY OF SUCH DAMAGE.
"#;

/// The notice that places a work under the Apache license, version 2.0.
pub const LICENSE_APACHE2: &'static str = r#"Apache License
Version 2.0, January 2004
http://www.apache.org/licenses/

Copyright {{year}} {{{author}}}

Licensed under the Apache License, Version 2.0 (the "License");
you may not use this file except in compliance with the License.
You may obtain a copy of the License at

    http://www.apache.org/licenses/LICENSE-2.0

Unless required by applicable law or agreed to in writing, software
distributed under the License is distributed on an "AS IS" BASIS,
WITHOUT WARRANTIES OR CONDITIONS OF ANY KIND, either express or implied.
See the License for the specific language governing permissions and
limitations under the License.
"#;

/// The settings of clang-format.
pub const CLANG_FORMAT: &'static str = r#"---
Language: Cpp
BasedOnStyle: Google
Standard: c++{{cpp_standard}}
IndentWidth: 4
ColumnLimit: 100
AccessModifierOffset: -4
AllowShortFunctionsOnASingleLine: Empty
AllowShortIfStatementsOnASingleLine: Never
AllowShortLoopsOnASingleLine: false
DerivePointerAlignment: false
PointerAlignment: Left
SortIncludes: CaseSensitive
...
"#;

/// The settings of cmake-format.
pub const CMAKE_FORMAT: &'static str = r#"format:
  line_width: 100
  tab_size: 4
  use_tabchars: false
  max_subgroups_hwrap: 2
  max_pargs_hwrap: 4
  dangle_parens: true
  command_case: lower
  keyword_case: upper
markup:
  enable_markup: false
"#;

/// The settings of clang-tidy.
pub const CLANG_TIDY: &'static str = r#"---
Checks: >
  -*,
  bugprone-*,
  clang-analyzer-*,
  cppcoreguidelines-*,
  modernize-*,
  performance-*,
  portability-*,
  readability-*,
  -modernize-use-trailing-return-type,
  -readability-magic-numbers,
  -cppcoreguidelines-avoid-magic-numbers
WarningsAsErrors: ''
HeaderFilterRegex: '(include|src)/.*'
FormatStyle: file
CheckOptions:
  - key: readability-identifier-naming.NamespaceCase
    value: lower_case
  - key: readability-identifier-naming.ClassCase
    value: CamelCase
  - key: readability-identifier-naming.FunctionCase
    value: lower_case
  - key: readability-identifier-naming.VariableCase
    value: lower_case
"#;

/// What cppcheck is told to pass over.
pub const CPPCHECK_SUPPRESSIONS: &'static str = r#"<?xml version="1.0"?>
<suppressions>
    <suppress>
        <id>missingIncludeSystem</id>
    </suppress>
    <suppress>
        <id>unusedFunction</id>
    </suppress>
    <suppress>
        <id>unmatchedSuppression</id>
    </suppress>
    <suppress>
        <id>*</id>
        <fileName>build/*</fileName>
    </suppress>
</suppressions>
"#;

/// The list file of the tests of a CMake project.
pub const TESTS_CMAKE: &'static str = r#"{{#if (eq test_framework "doctest")}}
find_package(doctest REQUIRED)
set(TEST_LIBRARIES doctest::doctest)
{{/if}}
{{#if (eq test_framework "gtest")}}
find_package(GTest REQUIRED)
set(TEST_LIBRARIES GTest::gtest GTest::gtest_main)
{{/if}}
{{#if (eq test_framework "catch2")}}
find_package(Catch2 3 REQUIRED)
set(TEST_LIBRARIES Catch2::Catch2WithMain)
{{/if}}
{{#if (eq test_framework "boost")}}
find_package(Boost REQUIRED COMPONENTS unit_test_framework)
set(TEST_LIBRARIES Boost::unit_test_framework)
{{/if}}

add_executable({{name}}_tests main_test.cpp)
target_include_directories({{name}}_tests PRIVATE ${PROJECT_SOURCE_DIR}/include)
target_link_libraries({{name}}_tests PRIVATE ${TEST_LIBRARIES}{{#if is_library}} {{name}}{{/if}})
set_project_warnings({{name}}_tests)

add_test(NAME {{name}}_tests COMMAND {{name}}_tests)
"#;

/// The makefile of the tests of a project built with Make.
pub const TESTS_MAKEFILE: &'static str = r#"CXX ?= g++
CXXFLAGS ?= -std=c++{{cpp_standard}} -Wall -Wextra -Wpedantic -O2
CPPFLAGS += -I../include

BUILD_DIR := ../build
TEST_TARGET := $(BUILD_DIR)/main_test
{{#if is_library}}
LIBRARY := $(BUILD_DIR)/lib{{name}}.a
{{/if}}

.PHONY: all test clean

all: $(TEST_TARGET)

$(TEST_TARGET): main_test.cpp{{#if is_library}} $(LIBRARY){{/if}}
	@mkdir -p $(BUILD_DIR)
	$(CXX) $(CPPFLAGS) $(CXXFLAGS) $^ -o $@

test: $(TEST_TARGET)
	$(TEST_TARGET)

clean:
	rm -f $(TEST_TARGET)
"#;

/// A first test written with Boost.Test.
pub const BOOST_TEST_MAIN: &'static str = r#"#define BOOST_TEST_MODULE {{namespace}}_tests
#include <boost/test/included/unit_test.hpp>
{{#if is_library}}

#include "{{name}}.hpp"
{{/if}}

BOOST_AUTO_TEST_SUITE({{namespace}}_suite)

BOOST_AUTO_TEST_CASE(arithmetic_works) {
    BOOST_CHECK_EQUAL(1 + 1, 2);
}
{{#if is_library}}

BOOST_AUTO_TEST_CASE(greeting_is_not_empty) {
    BOOST_CHECK(!{{namespace}}::greeting().empty());
}
{{/if}}

BOOST_AUTO_TEST_SUITE_END()
"#;

/// A first test written with Catch2.
pub const CATCH2_MAIN: &'static str = r#"#include <catch2/catch_test_macros.hpp>
{{#if is_library}}

#include "{{name}}.hpp"
{{/if}}

TEST_CASE("arithmetic works", "[{{name}}]") {
    REQUIRE(1 + 1 == 2);
}
{{#if is_library}}

TEST_CASE("greeting is not empty", "[{{name}}]") {
    REQUIRE_FALSE({{namespace}}::greeting().empty());
}
{{/if}}
"#;

/// A first test written with Google Test.
pub const GTEST_MAIN: &'static str = r#"#include <gtest/gtest.h>
{{#if is_library}}

#include "{{name}}.hpp"
{{/if}}

TEST({{namespace}}_tests, ArithmeticWorks) {
    EXPECT_EQ(1 + 1, 2);
}
{{#if is_library}}

TEST({{namespace}}_tests, GreetingIsNotEmpty) {
    EXPECT_FALSE({{namespace}}::greeting().empty());
}
{{/if}}

int main(int argc, char** argv) {
    ::testing::InitGoogleTest(&argc, argv);
    return RUN_ALL_TESTS();
}
"#;

/// A first test written with doctest.
pub const DOCTEST_MAIN: &'static str = r#"#define DOCTEST_CONFIG_IMPLEMENT_WITH_MAIN
#include <doctest/doctest.h>
{{#if is_library}}

#include "{{name}}.hpp"
{{/if}}

TEST_CASE("arithmetic works") {
    CHECK(1 + 1 == 2);
}
{{#if is_library}}

TEST_CASE("greeting is not empty") {
    CHECK_FALSE({{namespace}}::greeting().empty());
}
{{/if}}
"#;

/// The templates that come with the library, each with the name it is
/// registered under, in the order of registration.
pub open spec fn builtin_table() -> Seq<(Seq<char>, Seq<char>)> {
    seq![
        ("main.cpp"@, MAIN_CPP@),
        ("CMakeLists.txt"@, CMAKE_LISTS@),
        ("options.cmake"@, OPTIONS_CMAKE@),
        ("compilation-flags.cmake"@, COMPILATION_FLAGS_CMAKE@),
        ("source.cmake"@, SOURCE_CMAKE@),
        ("Makefile"@, MAKEFILE@),
        ("header.hpp"@, HEADER_HPP@),
        ("library.cpp"@, LIBRARY_CPP@),
        ("example.cpp"@, EXAMPLE_CPP@),
        ("example.cmake"@, EXAMPLE_CMAKE@),
        ("gitignore"@, GITIGNORE@),
        ("README.md"@, README_MD@),
        ("conanfile.txt"@, CONANFILE_TXT@),
        ("vcpkg.json"@, VCPKG_JSON@),
        ("MIT"@, LICENSE_MIT@),
        ("GPL-3.0"@, LICENSE_GPL3@),
        ("BSD-3-Clause"@, LICENSE_BSD3@),
        ("Apache-2.0"@, LICENSE_APACHE2@),
        ("clang-format"@, CLANG_FORMAT@),
        ("cmake-format"@, CMAKE_FORMAT@),
        ("clang-tidy"@, CLANG_TIDY@),
        ("cppcheck-suppressions.xml"@, CPPCHECK_SUPPRESSIONS@),
        ("tests.cmake"@, TESTS_CMAKE@),
        ("boost_test_main.cpp"@, BOOST_TEST_MAIN@),
        ("catch2_main.cpp"@, CATCH2_MAIN@),
        ("gtest_main.cpp"@, GTEST_MAIN@),
        ("doctest_main.cpp"@, DOCTEST_MAIN@),
        ("tests.mk"@, TESTS_MAKEFILE@),
    ]
}

/// The names and texts of a table of templates.
pub open spec fn table_view(table: Seq<(&'static str, &'static str)>) -> Seq<
    (Seq<char>, Seq<char>),
> {
    table.map_values(|entry: (&'static str, &'static str)| (entry.0@, entry.1@))
}

/// The templates that come with the library, each with the name it is
/// registered under, in the order of registration.
pub fn template_table() -> (table: Vec<(&'static str, &'static str)>)
    ensures
        table_view(table@) == builtin_table(),
{
    let mut table: Vec<(&'static str, &'static str)> = Vec::new();
    table.push(("main.cpp", MAIN_CPP));
    table.push(("CMakeLists.txt", CMAKE_LISTS));
    table.push(("options.cmake", OPTIONS_CMAKE));
    table.push(("compilation-flags.cmake", COMPILATION_FLAGS_CMAKE));
    table.push(("source.cmake", SOURCE_CMAKE));
    table.push(("Makefile", MAKEFILE));
    table.push(("header.hpp", HEADER_HPP));
    table.push(("library.cpp", LIBRARY_CPP));
    table.push(("example.cpp", EXAMPLE_CPP));
    table.push(("example.cmake", EXAMPLE_CMAKE));
    table.push(("gitignore", GITIGNORE));
    table.push(("README.md", README_MD));
    table.push(("conanfile.txt", CONANFILE_TXT));
    table.push(("vcpkg.json", VCPKG_JSON));
    table.push(("MIT", LICENSE_MIT));
    table.push(("GPL-3.0", LICENSE_GPL3));
    table.push(("BSD-3-Clause", LICENSE_BSD3));
    table.push(("Apache-2.0", LICENSE_APACHE2));
    table.push(("clang-format", CLANG_FORMAT));
    table.push(("cmake-format", CMAKE_FORMAT));
    table.push(("clang-tidy", CLANG_TIDY));
    table.push(("cppcheck-suppressions.xml", CPPCHECK_SUPPRESSIONS));
    table.push(("tests.cmake", TESTS_CMAKE));
    table.push(("boost_test_main.cpp", BOOST_TEST_MAIN));
    table.push(("catch2_main.cpp", CATCH2_MAIN));
    table.push(("gtest_main.cpp", GTEST_MAIN));
    table.push(("doctest_main.cpp", DOCTEST_MAIN));
    table.push(("tests.mk", TESTS_MAKEFILE));
    assert(table_view(table@) =~= builtin_table());
    table
}

} // verus!
