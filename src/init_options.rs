//! The initialization options sent to the server during the handshake, and
//! their JSON text.

use vstd::prelude::*;
use vstd::string::StringExecFns;

verus! {

/// When the server validates a document.
#[derive(Clone, Copy, Debug, PartialEq, Eq, Structural)]
pub struct ValidationOptions {
    pub validate_on_save: bool,
    pub validate_on_type: bool,
}

/// Which diagnostics the server reports besides errors.
#[derive(Clone, Copy, Debug, PartialEq, Eq, Structural)]
pub struct DiagnosticsOptions {
    pub show_warnings: bool,
    pub show_hints: bool,
}

/// The whole options document, which the server finds under the key
/// `"spectra"`.
#[derive(Clone, Copy, Debug, PartialEq, Eq, Structural)]
pub struct InitializationOptions {
    pub validation: ValidationOptions,
    pub diagnostics: DiagnosticsOptions,
}

/// The options that every server started by this extension receives: every
/// check and every kind of diagnostic switched on.
pub open spec fn default_options() -> InitializationOptions {
    InitializationOptions {
        validation: ValidationOptions { validate_on_save: true, validate_on_type: true },
        diagnostics: DiagnosticsOptions { show_warnings: true, show_hints: true },
    }
}

/// A JSON boolean literal.
pub open spec fn bool_text(b: bool) -> Seq<char> {
    if b {
        "true"@
    } else {
        "false"@
    }
}

/// A JSON object member: the key in quotes, a colon, the value.
pub open spec fn member_text(key: Seq<char>, value: Seq<char>) -> Seq<char> {
    "\""@ + key + "\":"@ + value
}

/// A JSON object with one member.
pub open spec fn object1_text(a: Seq<char>) -> Seq<char> {
    "{"@ + a + "}"@
}

/// A JSON object with two members, in this order.
pub open spec fn object2_text(a: Seq<char>, b: Seq<char>) -> Seq<char> {
    "{"@ + a + ","@ + b + "}"@
}

impl ValidationOptions {
    pub open spec fn json_text(self) -> Seq<char> {
        object2_text(
            member_text("validateOnSave"@, bool_text(self.validate_on_save)),
            member_text("validateOnType"@, bool_text(self.validate_on_type)),
        )
    }
}

impl DiagnosticsOptions {
    pub open spec fn json_text(self) -> Seq<char> {
        object2_text(
            member_text("showWarnings"@, bool_text(self.show_warnings)),
            member_text("showHints"@, bool_text(self.show_hints)),
        )
    }
}

impl InitializationOptions {
    /// The document as the server reads it: the options nested under
    /// `"spectra"`, validation first.
    pub open spec fn json_text(self) -> Seq<char> {
        object1_text(
            member_text(
                "spectra"@,
                object2_text(
                    member_text("validation"@, self.validation.json_text()),
                    member_text("diagnostics"@, self.diagnostics.json_text()),
                ),
            ),
        )
    }
}

/// Appends a JSON boolean literal.
fn write_bool(out: &mut String, b: bool)
    ensures
        final(out)@ == old(out)@ + bool_text(b),
{
    if b {
        out.append("true");
    } else {
        out.append("false");
    }
}

/// Appends the opening of an object member: the quoted key and the colon.
fn write_key(out: &mut String, key: &str)
    ensures
        final(out)@ == old(out)@ + "\""@ + key@ + "\":"@,
{
    out.append("\"");
    out.append(key);
    out.append("\":");
}

/// Appends a JSON object of two boolean members.
fn write_bool_pair(out: &mut String, key_a: &str, a: bool, key_b: &str, b: bool)
    ensures
        final(out)@ == old(out)@ + object2_text(
            member_text(key_a@, bool_text(a)),
            member_text(key_b@, bool_text(b)),
        ),
{
    let ghost start = out@;
    out.append("{");
    write_key(out, key_a);
    write_bool(out, a);
    out.append(",");
    write_key(out, key_b);
    write_bool(out, b);
    out.append("}");
    assert(out@ =~= start + object2_text(
        member_text(key_a@, bool_text(a)),
        member_text(key_b@, bool_text(b)),
    ));
}

impl ValidationOptions {
    /// Appends this part of the document.
    pub fn write_json(&self, out: &mut String)
        ensures
            final(out)@ == old(out)@ + self.json_text(),
    {
        write_bool_pair(
            out,
            "validateOnSave",
            self.validate_on_save,
            "validateOnType",
            self.validate_on_type,
        );
    }
}

impl DiagnosticsOptions {
    /// Appends this part of the document.
    pub fn write_json(&self, out: &mut String)
        ensures
            final(out)@ == old(out)@ + self.json_text(),
    {
        write_bool_pair(out, "showWarnings", self.show_warnings, "showHints", self.show_hints);
    }
}

impl InitializationOptions {
    /// The options that every server started by this extension receives.
    pub fn new() -> (r: InitializationOptions)
        ensures
            r == default_options(),
    {
        InitializationOptions {
            validation: ValidationOptions { validate_on_save: true, validate_on_type: true },
            diagnostics: DiagnosticsOptions { show_warnings: true, show_hints: true },
        }
    }

    /// Appends the two groups of options as one JSON object.
    fn write_groups(&self, out: &mut String)
        ensures
            final(out)@ == old(out)@ + object2_text(
                member_text("validation"@, self.validation.json_text()),
                member_text("diagnostics"@, self.diagnostics.json_text()),
            ),
    {
        let ghost start = out@;
        out.append("{");
        write_key(out, "validation");
        self.validation.write_json(out);
        out.append(",");
        write_key(out, "diagnostics");
        self.diagnostics.write_json(out);
        out.append("}");
        assert(out@ =~= start + object2_text(
            member_text("validation"@, self.validation.json_text()),
            member_text("diagnostics"@, self.diagnostics.json_text()),
        ));
    }

    /// The document as JSON text.
    pub fn to_json(&self) -> (r: String)
        ensures
            r@ == self.json_text(),
    {
        let mut out = String::new();
        out.append("{");
        write_key(&mut out, "spectra");
        self.write_groups(&mut out);
        out.append("}");
        assert(out@ =~= self.json_text());
        out
    }
}

/// The initialization options handed to a starting server, as JSON text.
/// They are always present and the same on every call.
pub fn language_server_initialization_options() -> (r: Option<String>)
    ensures
        r matches Some(text) && text@ == default_options().json_text(),
{
    Some(InitializationOptions::new().to_json())
}

} // verus!
