use license_header::license::{Apache2, BSD2, BSD3, License, MIT};

fn mit_text(name: &str, year: &str) -> String {
    let m = MIT::new(Some(name.to_string()), Some(year.to_string()));
    m.string()
}

#[test]
fn render_is_deterministic_mit() {
    assert_eq!(mit_text("Ada", "2020"), mit_text("Ada", "2020"));
}

#[test]
fn render_is_deterministic_apache2() {
    let a = Apache2::new(Some("Ada".to_string()), Some("2020".to_string())).string();
    let b = Apache2::new(Some("Ada".to_string()), Some("2020".to_string())).string();
    assert_eq!(a, b);
}

#[test]
fn render_is_deterministic_bsd3() {
    let a = BSD3::new(Some("Ada".to_string()), Some("2020".to_string())).string();
    let b = BSD3::new(Some("Ada".to_string()), Some("2020".to_string())).string();
    assert_eq!(a, b);
}

#[test]
fn render_is_deterministic_bsd2() {
    let a = BSD2::new(Some("Ada".to_string()), Some("2020".to_string())).string();
    let b = BSD2::new(Some("Ada".to_string()), Some("2020".to_string())).string();
    assert_eq!(a, b);
}

#[test]
fn mit_jane_doe_2024_exact() {
    let expected = "Copyright 2024 Jane Doe\n\nPermission is hereby granted, free of charge, to any person obtaining a copy of this software and associated documentation files (the \"Software\"), to deal in the Software without restriction, including without limitation the rights to use, copy, modify, merge, publish, distribute, sublicense, and/or sell copies of the Software, and to permit persons to whom the Software is furnished to do so, subject to the following conditions:\n\nThe above copyright notice and this permission notice shall be included in all copies or substantial portions of the Software.\n\nTHE SOFTWARE IS PROVIDED \"AS IS\", WITHOUT WARRANTY OF ANY KIND, EXPRESS OR IMPLIED, INCLUDING BUT NOT LIMITED TO THE WARRANTIES OF MERCHANTABILITY, FITNESS FOR A PARTICULAR PURPOSE AND NONINFRINGEMENT. IN NO EVENT SHALL THE AUTHORS OR COPYRIGHT HOLDERS BE LIABLE FOR ANY CLAIM, DAMAGES OR OTHER LIABILITY, WHETHER IN AN ACTION OF CONTRACT, TORT OR OTHERWISE, ARISING FROM, OUT OF OR IN CONNECTION WITH THE SOFTWARE OR THE USE OR OTHER DEALINGS IN THE SOFTWARE.";
    assert_eq!(mit_text("Jane Doe", "2024"), expected);
}

#[test]
fn mit_starts_with_copyright_line_then_blank() {
    let t = mit_text("Jane Doe", "2024");
    assert!(t.starts_with("Copyright 2024 Jane Doe\n\nPermission is hereby granted, free of charge,"));
}

#[test]
fn apache2_exact() {
    let t = Apache2::new(Some("Jane Doe".to_string()), Some("2024".to_string())).string();
    assert_eq!(t, "Copyright 2024 Jane Doe\n\nLicensed under the Apache License, Version 2.0 (the \"License\");\nyou may not use this file except in compliance with the License.\nYou may obtain a copy of the License at\n\n  http://www.apache.org/licenses/LICENSE-2.0\n\nUnless required by applicable law or agreed to in writing, software\ndistributed under the License is distributed on an \"AS IS\" BASIS,\nWITHOUT WARRANTIES OR CONDITIONS OF ANY KIND, either express or implied.\nSee the License for the specific language governing permissions and\nlimitations under the License.");
}

#[test]
fn bsd3_exact() {
    let t = BSD3::new(Some("Jane Doe".to_string()), Some("2024".to_string())).string();
    assert_eq!(t, "Copyright 2024 Jane Doe\n\nRedistribution and use in source and binary forms, with or without modification, are permitted provided that the following conditions are met:\n\n1. Redistributions of source code must retain the above copyright notice, this list of conditions and the following disclaimer.\n\n2. Redistributions in binary form must reproduce the above copyright notice, this list of conditions and the following disclaimer in the documentation and/or other materials provided with the distribution.\n\n3. Neither the name of the copyright holder nor the names of its contributors may be used to endorse or promote products derived from this software without specific prior written permission.\n\nTHIS SOFTWARE IS PROVIDED BY THE COPYRIGHT HOLDERS AND CONTRIBUTORS \"AS IS\" AND ANY EXPRESS OR IMPLIED WARRANTIES, INCLUDING, BUT NOT LIMITED TO, THE IMPLIED WARRANTIES OF MERCHANTABILITY AND FITNESS FOR A PARTICULAR PURPOSE ARE DISCLAIMED. IN NO EVENT SHALL THE COPYRIGHT HOLDER OR CONTRIBUTORS BE LIABLE FOR ANY DIRECT, INDIRECT, INCIDENTAL, SPECIAL, EXEMPLARY, OR CONSEQUENTIAL DAMAGES (INCLUDING, BUT NOT LIMITED TO, PROCUREMENT OF SUBSTITUTE GOODS OR SERVICES; LOSS OF USE, DATA, OR PROFITS; OR BUSINESS INTERRUPTION) HOWEVER CAUSED AND ON ANY THEORY OF LIABILITY, WHETHER IN CONTRACT, STRICT LIABILITY, OR TORT (INCLUDING NEGLIGENCE OR OTHERWISE) ARISING IN ANY WAY OUT OF THE USE OF THIS SOFTWARE, EVEN IF ADVISED OF THE POSSIBILITY OF SUCH DAMAGE.");
}

#[test]
fn bsd2_exact() {
    let t = BSD2::new(Some("Jane Doe".to_string()), Some("2024".to_string())).string();
    assert_eq!(t, "Copyright 2024 Jane Doe\n\nRedistribution and use in source and binary forms, with or without modification, are permitted provided that the following conditions are met:\n\n1. Redistributions of source code must retain the above copyright notice, this list of conditions and the following disclaimer.\n\n2. Redistributions in binary form must reproduce the above copyright notice, this list of conditions and the following disclaimer in the documentation and/or other materials provided with the distribution.\n\nTHIS SOFTWARE IS PROVIDED BY THE COPYRIGHT HOLDERS AND CONTRIBUTORS \"AS IS\" AND ANY EXPRESS OR IMPLIED WARRANTIES, INCLUDING, BUT NOT LIMITED TO, THE IMPLIED WARRANTIES OF MERCHANTABILITY AND FITNESS FOR A PARTICULAR PURPOSE ARE DISCLAIMED. IN NO EVENT SHALL THE COPYRIGHT HOLDER OR CONTRIBUTORS BE LIABLE FOR ANY DIRECT, INDIRECT, INCIDENTAL, SPECIAL, EXEMPLARY, OR CONSEQUENTIAL DAMAGES (INCLUDING, BUT NOT LIMITED TO, PROCUREMENT OF SUBSTITUTE GOODS OR SERVICES; LOSS OF USE, DATA, OR PROFITS; OR BUSINESS INTERRUPTION) HOWEVER CAUSED AND ON ANY THEORY OF LIABILITY, WHETHER IN CONTRACT, STRICT LIABILITY, OR TORT (INCLUDING NEGLIGENCE OR OTHERWISE) ARISING IN ANY WAY OUT OF THE USE OF THIS SOFTWARE, EVEN IF ADVISED OF THE POSSIBILITY OF SUCH DAMAGE.");
}

#[test]
fn absent_name_is_empty_string() {
    let m = MIT::new(None, Some("2024".to_string()));
    assert_eq!(m.name, "");
    assert!(m.text.starts_with("Copyright 2024 \n\n"));
}

#[test]
fn absent_year_is_current_utc_year() {
    let now = chrono::Utc::now();
    let year = chrono::Datelike::year(&now).to_string();
    let m = MIT::new(Some("Ada".to_string()), None);
    assert_eq!(m.year, year);
    assert_eq!(m.year.len(), 4);
    assert!(m.year.chars().all(|c| c.is_ascii_digit()));
    assert!(m.text.starts_with(&format!("Copyright {year} Ada\n\n")));
}

#[test]
fn string_yields_the_text_field() {
    let m = MIT::new(Some("Ada".to_string()), Some("1999".to_string()));
    let copy = m.text.clone();
    assert_eq!(m.string(), copy);
}

#[test]
fn fields_hold_resolved_inputs() {
    let m = BSD3::new(Some("Grace".to_string()), Some("2001".to_string()));
    assert_eq!(m.name, "Grace");
    assert_eq!(m.year, "2001");
}
