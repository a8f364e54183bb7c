//! Startup Script model types

use vstd::prelude::*;
use crate::codec::{base64_decode, base64_encode, base64_decodes_its_encoding, base64_decoded, base64_text, spec_to_lowercase, string_from_utf8, to_lowercase};
use crate::text::{owned, str_eq};
use vstd::utf8::{decode_utf8, encode_utf8, valid_utf8};

verus! {

/// Startup script type
#[derive(Debug, Clone, Copy, PartialEq, Eq, Structural)]
pub enum ScriptType {
    Boot,
    Pxe,
    Unknown,
}

/// Startup Script
#[derive(Debug, Clone)]
pub struct StartupScript {
    /// Unique ID for the startup script
    pub id: String,
    /// Date the script was created
    pub date_created: Option<String>,
    /// Date the script was last modified
    pub date_modified: Option<String>,
    /// User-supplied name
    pub name: Option<String>,
    /// Base64-encoded script content
    pub script: Option<String>,
    /// Script type (boot or pxe)
    pub script_type: Option<ScriptType>,
}

/// Request to create a startup script
#[derive(Debug, Clone)]
pub struct CreateStartupScriptRequest {
    /// Name for the script
    pub name: String,
    /// Base64-encoded script content
    pub script: String,
    /// Script type (boot or pxe)
    pub script_type: Option<String>,
}

/// Request to update a startup script
#[derive(Debug, Clone, Default)]
pub struct UpdateStartupScriptRequest {
    /// New name for the script
    pub name: Option<String>,
    /// New base64-encoded script content
    pub script: Option<String>,
    /// New script type
    pub script_type: Option<String>,
}

/// Response wrapper for startup script operations
#[derive(Debug, Clone)]
pub struct StartupScriptResponse {
    pub startup_script: StartupScript,
}

/// Response wrapper for startup script list
#[derive(Debug, Clone)]
pub struct StartupScriptsResponse {
    pub startup_scripts: Vec<StartupScript>,
}

} // verus!

verus! {

impl ScriptType {
    /// The text that the API and the tables use for this value.
    pub open spec fn label(self) -> Seq<char> {
        match self {
            ScriptType::Boot => "boot"@,
            ScriptType::Pxe => "pxe"@,
            ScriptType::Unknown => "unknown"@,
        }
    }

    /// The text of this value, as its display form shows it.
    pub fn as_str(&self) -> (s: &'static str)
        ensures
            s@ == self.label(),
    {
        match self {
            ScriptType::Boot => "boot",
            ScriptType::Pxe => "pxe",
            ScriptType::Unknown => "unknown",
        }
    }

    /// The display form of this value as an owned string.
    pub fn to_string(&self) -> (s: String)
        ensures
            s@ == self.label(),
    {
        owned(self.as_str())
    }

    /// The value named by `s` after Unicode lower-case mapping, if any.
    pub open spec fn parsed(s: Seq<char>) -> Option<ScriptType> {
        let k = spec_to_lowercase(s);
        if k == "boot"@ {
            Some(ScriptType::Boot)
        } else if k == "pxe"@ {
            Some(ScriptType::Pxe)
        } else {
            None
        }
    }

    /// Parse a value as its `FromStr` implementation does; the error names the input.
    pub fn parse(s: &str) -> (r: Result<ScriptType, String>)
        ensures
            r matches Ok(v) ==> Self::parsed(s@) == Some(v),
            r matches Err(msg) ==> Self::parsed(s@) is None && msg@ == "Unknown script type: "@ + s@,
    {
        let k = to_lowercase(s);
        if str_eq(k.as_str(), "boot") {
            Ok(ScriptType::Boot)
        } else if str_eq(k.as_str(), "pxe") {
            Ok(ScriptType::Pxe)
        } else {
            let mut msg = owned("Unknown script type: ");
            msg.append(s);
            Err(msg)
        }
    }
}

impl std::str::FromStr for ScriptType {
    type Err = String;

    fn from_str(s: &str) -> (r: Result<Self, Self::Err>)
        ensures
            r matches Ok(v) ==> Self::parsed(s@) == Some(v),
            r matches Err(msg) ==> Self::parsed(s@) is None && msg@ == "Unknown script type: "@ + s@,
    {
        ScriptType::parse(s)
    }
}

impl Default for ScriptType {
    fn default() -> (r: Self)
        ensures
            r == ScriptType::Boot,
    {
        ScriptType::Boot
    }
}

/// The text that the bytes decoded from base64 `encoded` spell as UTF-8, if they do.
pub open spec fn decoded_text(encoded: Seq<char>) -> Option<Seq<char>> {
    match base64_decoded(encoded) {
        Some(bytes) => if valid_utf8(bytes) {
            Some(decode_utf8(bytes))
        } else {
            None
        },
        None => None,
    }
}

/// `encoded` is the base64 form of the UTF-8 bytes of `content`.
pub open spec fn encodes_text(encoded: Seq<char>, content: Seq<char>) -> bool {
    encoded == base64_text(encode_utf8(content))
}

/// Base64 of the UTF-8 bytes of `content`.
fn encode_text(content: &str) -> (r: String)
    ensures
        encodes_text(r@, content@),
{
    base64_encode(content.as_bytes())
}

impl StartupScript {
    /// The script content decoded from base64, when it decodes to UTF-8 text.
    pub open spec fn decoded_script(self) -> Option<Seq<char>> {
        match self.script {
            Some(s) => decoded_text(s@),
            None => None,
        }
    }

    /// Decode the script content from base64.
    pub fn decode_script(&self) -> (r: Option<String>)
        ensures
            r.is_some() == self.decoded_script().is_some(),
            r matches Some(s) ==> Some(s@) == self.decoded_script(),
    {
        match &self.script {
            Some(s) => match base64_decode(s.as_str()) {
                Ok(bytes) => {
                    proof {
                        base64_decodes_its_encoding(bytes@);
                    }
                    match string_from_utf8(bytes) {
                        Ok(text) => Some(text),
                        Err(_) => None,
                    }
                },
                Err(_) => None,
            },
            None => None,
        }
    }
}

impl CreateStartupScriptRequest {
    /// Create a new startup script request with raw (non-base64) content.
    pub fn new(name: String, content: &str, script_type: Option<ScriptType>) -> (r: Self)
        ensures
            r.name == name,
            encodes_text(r.script@, content@),
            r.script_type.is_some() == script_type.is_some(),
            r.script_type matches Some(t) ==> t@ == script_type.unwrap().label(),
    {
        let encoded = encode_text(content);
        let script_type = match script_type {
            Some(t) => Some(t.to_string()),
            None => None,
        };
        CreateStartupScriptRequest { name, script: encoded, script_type }
    }
}

impl UpdateStartupScriptRequest {
    /// Set the script content from raw (non-base64) content.
    pub fn with_raw_script(self, content: &str) -> (r: Self)
        ensures
            r.name == self.name,
            r.script_type == self.script_type,
            r.script matches Some(s) && encodes_text(s@, content@),
    {
        let mut this = self;
        this.script = Some(encode_text(content));
        this
    }
}

/// Decoding base64 that was made from text gives that text back: a script stored with
/// the content of a creation request decodes to the raw content the request was made from.
pub proof fn created_script_decodes_to_content(script: StartupScript, content: Seq<char>)
    requires
        script.script matches Some(s) && encodes_text(s@, content),
    ensures
        script.decoded_script() == Some(content),
{
    vstd::utf8::encode_utf8_valid_utf8(content);
    vstd::utf8::encode_utf8_decode_utf8(content);
    base64_decodes_its_encoding(encode_utf8(content));
}

} // verus!
