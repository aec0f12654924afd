use vstd::prelude::*;

verus! {

/// The full rendered text of a license: the line `Copyright {year} {name}`,
/// a blank line, then the fixed body of the chosen license verbatim.
pub open spec fn rendered_text(body: Seq<char>, name: Seq<char>, year: Seq<char>) -> Seq<char> {
    "Copyright "@ + year + " "@ + name + "\n\n"@ + body
}

/// The fixed boilerplate body of the MIT license.
pub open spec fn mit_body() -> Seq<char> {
    "Permission is hereby granted, free of charge, to any person obtaining a copy of this software and associated documentation files (the \"Software\"), to deal in the Software without restriction, including without limitation the rights to use, copy, modify, merge, publish, distribute, sublicense, and/or sell copies of the Software, and to permit persons to whom the Software is furnished to do so, subject to the following conditions:\n\nThe above copyright notice and this permission notice shall be included in all copies or substantial portions of the Software.\n\nTHE SOFTWARE IS PROVIDED \"AS IS\", WITHOUT WARRANTY OF ANY KIND, EXPRESS OR IMPLIED, INCLUDING BUT NOT LIMITED TO THE WARRANTIES OF MERCHANTABILITY, FITNESS FOR A PARTICULAR PURPOSE AND NONINFRINGEMENT. IN NO EVENT SHALL THE AUTHORS OR COPYRIGHT HOLDERS BE LIABLE FOR ANY CLAIM, DAMAGES OR OTHER LIABILITY, WHETHER IN AN ACTION OF CONTRACT, TORT OR OTHERWISE, ARISING FROM, OUT OF OR IN CONNECTION WITH THE SOFTWARE OR THE USE OR OTHER DEALINGS IN THE SOFTWARE."@
}

/// The fixed boilerplate body of the Apache-2.0 license.
pub open spec fn apache2_body() -> Seq<char> {
    "Licensed under the Apache License, Version 2.0 (the \"License\");\nyou may not use this file except in compliance with the License.\nYou may obtain a copy of the License at\n\n  http://www.apache.org/licenses/LICENSE-2.0\n\nUnless required by applicable law or agreed to in writing, software\ndistributed under the License is distributed on an \"AS IS\" BASIS,\nWITHOUT WARRANTIES OR CONDITIONS OF ANY KIND, either express or implied.\nSee the License for the specific language governing permissions and\nlimitations under the License."@
}

/// The fixed boilerplate body of the BSD-3-Clause license.
pub open spec fn bsd3_body() -> Seq<char> {
    "Redistribution and use in source and binary forms, with or without modification, are permitted provided that the following conditions are met:\n\n1. Redistributions of source code must retain the above copyright notice, this list of conditions and the following disclaimer.\n\n2. Redistributions in binary form must reproduce the above copyright notice, this list of conditions and the following disclaimer in the documentation and/or other materials provided with the distribution.\n\n3. Neither the name of the copyright holder nor the names of its contributors may be used to endorse or promote products derived from this software without specific prior written permission.\n\nTHIS SOFTWARE IS PROVIDED BY THE COPYRIGHT HOLDERS AND CONTRIBUTORS \"AS IS\" AND ANY EXPRESS OR IMPLIED WARRANTIES, INCLUDING, BUT NOT LIMITED TO, THE IMPLIED WARRANTIES OF MERCHANTABILITY AND FITNESS FOR A PARTICULAR PURPOSE ARE DISCLAIMED. IN NO EVENT SHALL THE COPYRIGHT HOLDER OR CONTRIBUTORS BE LIABLE FOR ANY DIRECT, INDIRECT, INCIDENTAL, SPECIAL, EXEMPLARY, OR CONSEQUENTIAL DAMAGES (INCLUDING, BUT NOT LIMITED TO, PROCUREMENT OF SUBSTITUTE GOODS OR SERVICES; LOSS OF USE, DATA, OR PROFITS; OR BUSINESS INTERRUPTION) HOWEVER CAUSED AND ON ANY THEORY OF LIABILITY, WHETHER IN CONTRACT, STRICT LIABILITY, OR TORT (INCLUDING NEGLIGENCE OR OTHERWISE) ARISING IN ANY WAY OUT OF THE USE OF THIS SOFTWARE, EVEN IF ADVISED OF THE POSSIBILITY OF SUCH DAMAGE."@
}

/// The fixed boilerplate body of the BSD-2-Clause license.
pub open spec fn bsd2_body() -> Seq<char> {
    "Redistribution and use in source and binary forms, with or without modification, are permitted provided that the following conditions are met:\n\n1. Redistributions of source code must retain the above copyright notice, this list of conditions and the following disclaimer.\n\n2. Redistributions in binary form must reproduce the above copyright notice, this list of conditions and the following disclaimer in the documentation and/or other materials provided with the distribution.\n\nTHIS SOFTWARE IS PROVIDED BY THE COPYRIGHT HOLDERS AND CONTRIBUTORS \"AS IS\" AND ANY EXPRESS OR IMPLIED WARRANTIES, INCLUDING, BUT NOT LIMITED TO, THE IMPLIED WARRANTIES OF MERCHANTABILITY AND FITNESS FOR A PARTICULAR PURPOSE ARE DISCLAIMED. IN NO EVENT SHALL THE COPYRIGHT HOLDER OR CONTRIBUTORS BE LIABLE FOR ANY DIRECT, INDIRECT, INCIDENTAL, SPECIAL, EXEMPLARY, OR CONSEQUENTIAL DAMAGES (INCLUDING, BUT NOT LIMITED TO, PROCUREMENT OF SUBSTITUTE GOODS OR SERVICES; LOSS OF USE, DATA, OR PROFITS; OR BUSINESS INTERRUPTION) HOWEVER CAUSED AND ON ANY THEORY OF LIABILITY, WHETHER IN CONTRACT, STRICT LIABILITY, OR TORT (INCLUDING NEGLIGENCE OR OTHERWISE) ARISING IN ANY WAY OUT OF THE USE OF THIS SOFTWARE, EVEN IF ADVISED OF THE POSSIBILITY OF SUCH DAMAGE."@
}

/// A decimal numeral: at least one digit, with an optional leading minus sign.
pub open spec fn is_decimal_numeral(s: Seq<char>) -> bool {
    let digits = if s.len() > 0 && s[0] == '-' {
        s.drop_first()
    } else {
        s
    };
    &&& digits.len() > 0
    &&& forall|i: int| 0 <= i < digits.len() ==> '0' <= #[trigger] digits[i] <= '9'
}

/// Relies on `std::time::SystemTime::now`, chrono's `From<SystemTime>`
/// conversion to a UTC datetime, and `chrono::Datelike::year` for the current
/// UTC calendar year. The `From` conversion, unlike `chrono::Utc::now`,
/// accepts instants before the Unix epoch; it still rejects, by panic,
/// instants outside chrono's representable range of roughly 262,000 years
/// from today, which no real clock reaches. The value depends on the system
/// clock, so only its shape is promised: `year` returns an `i32`, and `i32`'s
/// `to_string` is documented to produce its decimal numeral.
#[verifier::external_body]
fn current_year_string() -> (r: String)
    ensures
        is_decimal_numeral(r@),
{
    let now = chrono::DateTime::<chrono::Utc>::from(std::time::SystemTime::now());
    chrono::Datelike::year(&now).to_string()
}

/// An absent holder name resolves to the empty string. A caller that wants an
/// environment-derived default supplies it as `Some` before construction.
fn resolve_name(name: Option<String>) -> (r: String)
    ensures
        name matches Some(n) ==> r@ == n@,
        name is None ==> r@ == Seq::<char>::empty(),
{
    match name {
        Some(v) => v,
        None => String::new(),
    }
}

/// An absent year resolves to the current UTC calendar year.
fn resolve_year(year: Option<String>) -> (r: String)
    ensures
        year matches Some(y) ==> r@ == y@,
        year is None ==> is_decimal_numeral(r@),
{
    match year {
        Some(y) => y,
        None => current_year_string(),
    }
}

/// Renders one license template: the copyright line built from `year` and
/// `name`, a blank line, then `body`.
fn render_parts(name: &str, year: &str, body: &str) -> (r: String)
    ensures
        r@ == rendered_text(body@, name@, year@),
{
    let mut r = String::new();
    r.append("Copyright ");
    r.append(year);
    r.append(" ");
    r.append(name);
    r.append("\n\n");
    r.append(body);
    proof {
        assert(r@ =~= rendered_text(body@, name@, year@));
    }
    r
}

/// A rendered license: its text is yielded once, consuming the value.
pub trait License: Sized {
    /// The rendered license text this value carries.
    spec fn spec_text(&self) -> Seq<char>;

    /// Consumes the value and yields its rendered text.
    fn string(self) -> (r: String)
        ensures
            r@ == self.spec_text(),
    ;
}

/// The MIT license, rendered for a holder name and year.
pub struct MIT {
    pub name: String,
    pub year: String,
    pub text: String,
}

impl MIT {
    /// A well-formed value carries exactly the rendered MIT template for
    /// its holder name and year.
    pub open spec fn wf(&self) -> bool {
        self.text@ == rendered_text(mit_body(), self.name@, self.year@)
    }

    /// Builds an MIT license. An absent name becomes the empty string
    /// (an environment-derived default is the caller's to supply); an absent
    /// year becomes the current UTC calendar year, a decimal numeral. The
    /// text is rendered once, at construction.
    pub fn new(name: Option<String>, year: Option<String>) -> (r: Self)
        ensures
            r.wf(),
            name matches Some(n) ==> r.name@ == n@,
            name is None ==> r.name@ == Seq::<char>::empty(),
            year matches Some(y) ==> r.year@ == y@,
            year is None ==> is_decimal_numeral(r.year@),
    {
        let name = resolve_name(name);
        let year = resolve_year(year);
        let text = render_parts(name.as_str(), year.as_str(), "Permission is hereby granted, free of charge, to any person obtaining a copy of this software and associated documentation files (the \"Software\"), to deal in the Software without restriction, including without limitation the rights to use, copy, modify, merge, publish, distribute, sublicense, and/or sell copies of the Software, and to permit persons to whom the Software is furnished to do so, subject to the following conditions:\n\nThe above copyright notice and this permission notice shall be included in all copies or substantial portions of the Software.\n\nTHE SOFTWARE IS PROVIDED \"AS IS\", WITHOUT WARRANTY OF ANY KIND, EXPRESS OR IMPLIED, INCLUDING BUT NOT LIMITED TO THE WARRANTIES OF MERCHANTABILITY, FITNESS FOR A PARTICULAR PURPOSE AND NONINFRINGEMENT. IN NO EVENT SHALL THE AUTHORS OR COPYRIGHT HOLDERS BE LIABLE FOR ANY CLAIM, DAMAGES OR OTHER LIABILITY, WHETHER IN AN ACTION OF CONTRACT, TORT OR OTHERWISE, ARISING FROM, OUT OF OR IN CONNECTION WITH THE SOFTWARE OR THE USE OR OTHER DEALINGS IN THE SOFTWARE.");
        Self { name, year, text }
    }
}

impl License for MIT {
    open spec fn spec_text(&self) -> Seq<char> {
        self.text@
    }

    fn string(self) -> (r: String) {
        self.text
    }
}

/// Rendering is deterministic: two well-formed MIT values with the same
/// holder name and year carry byte-identical text.
pub proof fn lemma_mit_deterministic(a: &MIT, b: &MIT)
    requires
        a.wf(),
        b.wf(),
        a.name@ == b.name@,
        a.year@ == b.year@,
    ensures
        a.text@ == b.text@,
{
}

/// The Apache-2.0 license, rendered for a holder name and year.
pub struct Apache2 {
    pub name: String,
    pub year: String,
    pub text: String,
}

impl Apache2 {
    /// A well-formed value carries exactly the rendered Apache-2.0 template for
    /// its holder name and year.
    pub open spec fn wf(&self) -> bool {
        self.text@ == rendered_text(apache2_body(), self.name@, self.year@)
    }

    /// Builds an Apache-2.0 license. An absent name becomes the empty string
    /// (an environment-derived default is the caller's to supply); an absent
    /// year becomes the current UTC calendar year, a decimal numeral. The
    /// text is rendered once, at construction.
    pub fn new(name: Option<String>, year: Option<String>) -> (r: Self)
        ensures
            r.wf(),
            name matches Some(n) ==> r.name@ == n@,
            name is None ==> r.name@ == Seq::<char>::empty(),
            year matches Some(y) ==> r.year@ == y@,
            year is None ==> is_decimal_numeral(r.year@),
    {
        let name = resolve_name(name);
        let year = resolve_year(year);
        let text = render_parts(name.as_str(), year.as_str(), "Licensed under the Apache License, Version 2.0 (the \"License\");\nyou may not use this file except in compliance with the License.\nYou may obtain a copy of the License at\n\n  http://www.apache.org/licenses/LICENSE-2.0\n\nUnless required by applicable law or agreed to in writing, software\ndistributed under the License is distributed on an \"AS IS\" BASIS,\nWITHOUT WARRANTIES OR CONDITIONS OF ANY KIND, either express or implied.\nSee the License for the specific language governing permissions and\nlimitations under the License.");
        Self { name, year, text }
    }
}

impl License for Apache2 {
    open spec fn spec_text(&self) -> Seq<char> {
        self.text@
    }

    fn string(self) -> (r: String) {
        self.text
    }
}

/// Rendering is deterministic: two well-formed Apache-2.0 values with the same
/// holder name and year carry byte-identical text.
pub proof fn lemma_apache2_deterministic(a: &Apache2, b: &Apache2)
    requires
        a.wf(),
        b.wf(),
        a.name@ == b.name@,
        a.year@ == b.year@,
    ensures
        a.text@ == b.text@,
{
}

/// The BSD-3-Clause license, rendered for a holder name and year.
pub struct BSD3 {
    pub name: String,
    pub year: String,
    pub text: String,
}

impl BSD3 {
    /// A well-formed value carries exactly the rendered BSD-3-Clause template for
    /// its holder name and year.
    pub open spec fn wf(&self) -> bool {
        self.text@ == rendered_text(bsd3_body(), self.name@, self.year@)
    }

    /// Builds a BSD-3-Clause license. An absent name becomes the empty string
    /// (an environment-derived default is the caller's to supply); an absent
    /// year becomes the current UTC calendar year, a decimal numeral. The
    /// text is rendered once, at construction.
    pub fn new(name: Option<String>, year: Option<String>) -> (r: Self)
        ensures
            r.wf(),
            name matches Some(n) ==> r.name@ == n@,
            name is None ==> r.name@ == Seq::<char>::empty(),
            year matches Some(y) ==> r.year@ == y@,
            year is None ==> is_decimal_numeral(r.year@),
    {
        let name = resolve_name(name);
        let year = resolve_year(year);
        let text = render_parts(name.as_str(), year.as_str(), "Redistribution and use in source and binary forms, with or without modification, are permitted provided that the following conditions are met:\n\n1. Redistributions of source code must retain the above copyright notice, this list of conditions and the following disclaimer.\n\n2. Redistributions in binary form must reproduce the above copyright notice, this list of conditions and the following disclaimer in the documentation and/or other materials provided with the distribution.\n\n3. Neither the name of the copyright holder nor the names of its contributors may be used to endorse or promote products derived from this software without specific prior written permission.\n\nTHIS SOFTWARE IS PROVIDED BY THE COPYRIGHT HOLDERS AND CONTRIBUTORS \"AS IS\" AND ANY EXPRESS OR IMPLIED WARRANTIES, INCLUDING, BUT NOT LIMITED TO, THE IMPLIED WARRANTIES OF MERCHANTABILITY AND FITNESS FOR A PARTICULAR PURPOSE ARE DISCLAIMED. IN NO EVENT SHALL THE COPYRIGHT HOLDER OR CONTRIBUTORS BE LIABLE FOR ANY DIRECT, INDIRECT, INCIDENTAL, SPECIAL, EXEMPLARY, OR CONSEQUENTIAL DAMAGES (INCLUDING, BUT NOT LIMITED TO, PROCUREMENT OF SUBSTITUTE GOODS OR SERVICES; LOSS OF USE, DATA, OR PROFITS; OR BUSINESS INTERRUPTION) HOWEVER CAUSED AND ON ANY THEORY OF LIABILITY, WHETHER IN CONTRACT, STRICT LIABILITY, OR TORT (INCLUDING NEGLIGENCE OR OTHERWISE) ARISING IN ANY WAY OUT OF THE USE OF THIS SOFTWARE, EVEN IF ADVISED OF THE POSSIBILITY OF SUCH DAMAGE.");
        Self { name, year, text }
    }
}

impl License for BSD3 {
    open spec fn spec_text(&self) -> Seq<char> {
        self.text@
    }

    fn string(self) -> (r: String) {
        self.text
    }
}

/// Rendering is deterministic: two well-formed BSD-3-Clause values with the same
/// holder name and year carry byte-identical text.
pub proof fn lemma_bsd3_deterministic(a: &BSD3, b: &BSD3)
    requires
        a.wf(),
        b.wf(),
        a.name@ == b.name@,
        a.year@ == b.year@,
    ensures
        a.text@ == b.text@,
{
}

/// The BSD-2-Clause license, rendered for a holder name and year.
pub struct BSD2 {
    pub name: String,
    pub year: String,
    pub text: String,
}

impl BSD2 {
    /// A well-formed value carries exactly the rendered BSD-2-Clause template for
    /// its holder name and year.
    pub open spec fn wf(&self) -> bool {
        self.text@ == rendered_text(bsd2_body(), self.name@, self.year@)
    }

    /// Builds a BSD-2-Clause license. An absent name becomes the empty string
    /// (an environment-derived default is the caller's to supply); an absent
    /// year becomes the current UTC calendar year, a decimal numeral. The
    /// text is rendered once, at construction.
    pub fn new(name: Option<String>, year: Option<String>) -> (r: Self)
        ensures
            r.wf(),
            name matches Some(n) ==> r.name@ == n@,
            name is None ==> r.name@ == Seq::<char>::empty(),
            year matches Some(y) ==> r.year@ == y@,
            year is None ==> is_decimal_numeral(r.year@),
    {
        let name = resolve_name(name);
        let year = resolve_year(year);
        let text = render_parts(name.as_str(), year.as_str(), "Redistribution and use in source and binary forms, with or without modification, are permitted provided that the following conditions are met:\n\n1. Redistributions of source code must retain the above copyright notice, this list of conditions and the following disclaimer.\n\n2. Redistributions in binary form must reproduce the above copyright notice, this list of conditions and the following disclaimer in the documentation and/or other materials provided with the distribution.\n\nTHIS SOFTWARE IS PROVIDED BY THE COPYRIGHT HOLDERS AND CONTRIBUTORS \"AS IS\" AND ANY EXPRESS OR IMPLIED WARRANTIES, INCLUDING, BUT NOT LIMITED TO, THE IMPLIED WARRANTIES OF MERCHANTABILITY AND FITNESS FOR A PARTICULAR PURPOSE ARE DISCLAIMED. IN NO EVENT SHALL THE COPYRIGHT HOLDER OR CONTRIBUTORS BE LIABLE FOR ANY DIRECT, INDIRECT, INCIDENTAL, SPECIAL, EXEMPLARY, OR CONSEQUENTIAL DAMAGES (INCLUDING, BUT NOT LIMITED TO, PROCUREMENT OF SUBSTITUTE GOODS OR SERVICES; LOSS OF USE, DATA, OR PROFITS; OR BUSINESS INTERRUPTION) HOWEVER CAUSED AND ON ANY THEORY OF LIABILITY, WHETHER IN CONTRACT, STRICT LIABILITY, OR TORT (INCLUDING NEGLIGENCE OR OTHERWISE) ARISING IN ANY WAY OUT OF THE USE OF THIS SOFTWARE, EVEN IF ADVISED OF THE POSSIBILITY OF SUCH DAMAGE.");
        Self { name, year, text }
    }
}

impl License for BSD2 {
    open spec fn spec_text(&self) -> Seq<char> {
        self.text@
    }

    fn string(self) -> (r: String) {
        self.text
    }
}

/// Rendering is deterministic: two well-formed BSD-2-Clause values with the same
/// holder name and year carry byte-identical text.
pub proof fn lemma_bsd2_deterministic(a: &BSD2, b: &BSD2)
    requires
        a.wf(),
        b.wf(),
        a.name@ == b.name@,
        a.year@ == b.year@,
    ensures
        a.text@ == b.text@,
{
}

} // verus!
