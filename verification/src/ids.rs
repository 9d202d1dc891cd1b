//! Identifier and text newtypes.
//!
//! Each wraps a `String` and is viewed as the sequence of its characters. The
//! types do not convert into one another: an alert id cannot be passed where a
//! field id is expected.

use vstd::prelude::*;
use vstd::std_specs::cmp::PartialEqSpecImpl;

verus! {

/// Whether `c` belongs to the URL-safe alphabet that generated identifiers are
/// drawn from: `_`, `-`, the digits and the unaccented letters.
pub open spec fn is_id_char(c: char) -> bool {
    c == '_' || c == '-' || ('0' <= c <= '9') || ('a' <= c <= 'z') || ('A' <= c <= 'Z')
}

/// Whether `s` could have come out of the generator when asked for `size`
/// characters.
pub open spec fn is_generated_id(s: Seq<char>, size: nat) -> bool {
    s.len() == size && forall|i: int| 0 <= i < s.len() ==> is_id_char(#[trigger] s[i])
}

/// `nanoid::format` with nanoid's default random source and its URL-safe
/// alphabet. The characters are random, so the contract states only what holds
/// of every outcome: the result has `size` characters, all from that alphabet.
/// A size of zero is left out because `format` never returns on it.
#[verifier::external_body]
fn random_id(size: usize) -> (id: String)
    requires
        0 < size <= 1024,
    ensures
        is_generated_id(id@, size as nat),
{
    nanoid::format(nanoid::rngs::default, &nanoid::alphabet::SAFE, size)
}

/// The identifier of an alert. It names the alert in requests, in messages and
/// on disk, and is fixed when the alert is created.
#[derive(Debug)]
pub struct AlertId(String);

impl View for AlertId {
    type V = Seq<char>;

    closed spec fn view(&self) -> Seq<char> {
        self.0@
    }
}

impl AlertId {
    pub fn new(value: String) -> (id: Self)
        ensures
            id@ == value@,
    {
        AlertId(value)
    }

    pub fn as_str(&self) -> (s: &str)
        ensures
            s@ == self@,
    {
        self.0.as_str()
    }

    pub fn into_string(self) -> (s: String)
        ensures
            s@ == self@,
    {
        self.0
    }

    /// A fresh random identifier of 21 URL-safe characters.
    pub fn new_id() -> (id: Self)
        ensures
            is_generated_id(id@, 21),
    {
        AlertId(random_id(21))
    }
}

impl Clone for AlertId {
    fn clone(&self) -> (copy: Self)
        ensures
            copy@ == self@,
    {
        AlertId(self.0.clone())
    }
}

impl PartialEq for AlertId {
    fn eq(&self, other: &Self) -> (equal: bool) {
        self.0 == other.0
    }
}

impl PartialEqSpecImpl for AlertId {
    open spec fn obeys_eq_spec() -> bool {
        true
    }

    open spec fn eq_spec(&self, other: &Self) -> bool {
        self@ == other@
    }
}

/// The label under which an alert is listed. It may change and need not be unique.
#[derive(Debug)]
pub struct AlertName(String);

impl View for AlertName {
    type V = Seq<char>;

    closed spec fn view(&self) -> Seq<char> {
        self.0@
    }
}

impl AlertName {
    pub fn new(value: String) -> (name: Self)
        ensures
            name@ == value@,
    {
        AlertName(value)
    }

    pub fn as_str(&self) -> (s: &str)
        ensures
            s@ == self@,
    {
        self.0.as_str()
    }

    pub fn into_string(self) -> (s: String)
        ensures
            s@ == self@,
    {
        self.0
    }
}

impl Clone for AlertName {
    fn clone(&self) -> (copy: Self)
        ensures
            copy@ == self@,
    {
        AlertName(self.0.clone())
    }
}

impl PartialEq for AlertName {
    fn eq(&self, other: &Self) -> (equal: bool) {
        self.0 == other.0
    }
}

impl PartialEqSpecImpl for AlertName {
    open spec fn obeys_eq_spec() -> bool {
        true
    }

    open spec fn eq_spec(&self, other: &Self) -> bool {
        self@ == other@
    }
}

/// The markdown template of an alert, before any field is substituted.
#[derive(Debug)]
pub struct AlertText(String);

impl View for AlertText {
    type V = Seq<char>;

    closed spec fn view(&self) -> Seq<char> {
        self.0@
    }
}

impl AlertText {
    pub fn new(value: String) -> (text: Self)
        ensures
            text@ == value@,
    {
        AlertText(value)
    }

    pub fn as_str(&self) -> (s: &str)
        ensures
            s@ == self@,
    {
        self.0.as_str()
    }

    pub fn into_string(self) -> (s: String)
        ensures
            s@ == self@,
    {
        self.0
    }
}

impl Clone for AlertText {
    fn clone(&self) -> (copy: Self)
        ensures
            copy@ == self@,
    {
        AlertText(self.0.clone())
    }
}

impl PartialEq for AlertText {
    fn eq(&self, other: &Self) -> (equal: bool) {
        self.0 == other.0
    }
}

impl PartialEqSpecImpl for AlertText {
    open spec fn obeys_eq_spec() -> bool {
        true
    }

    open spec fn eq_spec(&self, other: &Self) -> bool {
        self@ == other@
    }
}

/// Markdown in which every field has been substituted: what a viewer is shown
/// once it is turned into HTML.
#[derive(Debug)]
pub struct AlertMarkdown(String);

impl View for AlertMarkdown {
    type V = Seq<char>;

    closed spec fn view(&self) -> Seq<char> {
        self.0@
    }
}

impl AlertMarkdown {
    pub fn new(value: String) -> (markdown: Self)
        ensures
            markdown@ == value@,
    {
        AlertMarkdown(value)
    }

    pub fn as_str(&self) -> (s: &str)
        ensures
            s@ == self@,
    {
        self.0.as_str()
    }

    pub fn into_string(self) -> (s: String)
        ensures
            s@ == self@,
    {
        self.0
    }
}

impl Clone for AlertMarkdown {
    fn clone(&self) -> (copy: Self)
        ensures
            copy@ == self@,
    {
        AlertMarkdown(self.0.clone())
    }
}

impl PartialEq for AlertMarkdown {
    fn eq(&self, other: &Self) -> (equal: bool) {
        self.0 == other.0
    }
}

impl PartialEqSpecImpl for AlertMarkdown {
    open spec fn obeys_eq_spec() -> bool {
        true
    }

    open spec fn eq_spec(&self, other: &Self) -> bool {
        self@ == other@
    }
}

/// The label of a field: the word that follows `$` in a template. Two fields of
/// one alert may share a name.
#[derive(Debug)]
pub struct AlertFieldName(String);

impl View for AlertFieldName {
    type V = Seq<char>;

    closed spec fn view(&self) -> Seq<char> {
        self.0@
    }
}

impl AlertFieldName {
    pub fn new(value: String) -> (name: Self)
        ensures
            name@ == value@,
    {
        AlertFieldName(value)
    }

    pub fn as_str(&self) -> (s: &str)
        ensures
            s@ == self@,
    {
        self.0.as_str()
    }

    pub fn into_string(self) -> (s: String)
        ensures
            s@ == self@,
    {
        self.0
    }
}

impl Clone for AlertFieldName {
    fn clone(&self) -> (copy: Self)
        ensures
            copy@ == self@,
    {
        AlertFieldName(self.0.clone())
    }
}

impl PartialEq for AlertFieldName {
    fn eq(&self, other: &Self) -> (equal: bool) {
        self.0 == other.0
    }
}

impl PartialEqSpecImpl for AlertFieldName {
    open spec fn obeys_eq_spec() -> bool {
        true
    }

    open spec fn eq_spec(&self, other: &Self) -> bool {
        self@ == other@
    }
}

/// The identifier of a field within its alert.
#[derive(Debug)]
pub struct AlertFieldId(String);

impl View for AlertFieldId {
    type V = Seq<char>;

    closed spec fn view(&self) -> Seq<char> {
        self.0@
    }
}

impl AlertFieldId {
    pub fn new(value: String) -> (id: Self)
        ensures
            id@ == value@,
    {
        AlertFieldId(value)
    }

    pub fn as_str(&self) -> (s: &str)
        ensures
            s@ == self@,
    {
        self.0.as_str()
    }

    pub fn into_string(self) -> (s: String)
        ensures
            s@ == self@,
    {
        self.0
    }

    /// A fresh random identifier of 4 URL-safe characters.
    pub fn new_id() -> (id: Self)
        ensures
            is_generated_id(id@, 4),
    {
        AlertFieldId(random_id(4))
    }
}

impl Clone for AlertFieldId {
    fn clone(&self) -> (copy: Self)
        ensures
            copy@ == self@,
    {
        AlertFieldId(self.0.clone())
    }
}

impl PartialEq for AlertFieldId {
    fn eq(&self, other: &Self) -> (equal: bool) {
        self.0 == other.0
    }
}

impl PartialEqSpecImpl for AlertFieldId {
    open spec fn obeys_eq_spec() -> bool {
        true
    }

    open spec fn eq_spec(&self, other: &Self) -> bool {
        self@ == other@
    }
}

impl Default for AlertFieldId {
    /// A fresh random identifier, as `new_id` gives.
    fn default() -> (id: Self)
        ensures
            is_generated_id(id@, 4),
    {
        Self::new_id()
    }
}

} // verus!
