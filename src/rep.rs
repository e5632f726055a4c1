//! Records exchanged with the service.
use vstd::prelude::*;

verus! {

/// Dependency parse of one sentence.
#[derive(Debug, Clone)]
pub struct Dependency {
    pub head: Vec<isize>,
    pub role: Vec<String>,
    pub tag: Vec<String>,
    pub word: Vec<String>,
}

/// Named entities found in one text.
#[derive(Debug, Clone)]
pub struct NamedEntity {
    /// Entities as (first word, end word, kind).
    pub entity: Vec<(usize, usize, String)>,
    /// Part-of-speech tags.
    pub tag: Vec<String>,
    /// Segmented words.
    pub word: Vec<String>,
}

/// Word segmentation with part-of-speech tags.
#[derive(Debug, Clone)]
pub struct Tag {
    /// Part-of-speech tags.
    pub tag: Vec<String>,
    /// Segmented words.
    pub word: Vec<String>,
}

/// Result of normalising a time expression.
#[derive(Debug, Clone)]
pub struct ConvertedTime {
    /// A point in time, ISO 8601.
    pub timestamp: Option<String>,
    /// A duration, "xday,HH:MM:SS" or "HH:MM:SS".
    pub timedelta: Option<String>,
    /// An interval given by its two ends.
    pub timespan: Option<(String, String)>,
    /// One of `timestamp`, `timedelta`, `timespan_0`, `timespan_1`.
    pub format: String,
}

/// One cluster of documents.
#[derive(Debug, Clone)]
pub struct TextCluster {
    /// The most representative document of the cluster.
    pub _id: String,
    /// Identifiers of every document in the cluster.
    pub list: Vec<String>,
    /// Number of documents in the cluster.
    pub num: usize,
}

/// One representative opinion.
#[derive(Debug, Clone)]
pub struct CommentsCluster {
    /// Identifier of the opinion.
    pub _id: usize,
    /// The comments grouped under the opinion.
    pub list: Vec<(String, String)>,
    /// Number of similar comments.
    pub num: usize,
    /// Text of the opinion.
    pub opinion: String,
}

/// State of a server-side task.
#[derive(Debug, Copy, Clone, PartialEq, Eq, Structural)]
pub enum TaskStatus {
    /// The analysis request was received.
    Received,
    /// The analysis is running.
    Running,
    /// The analysis has finished.
    Done,
    /// The analysis stopped with an error.
    Error,
}

/// Reply to an upload of documents.
#[derive(Debug, Clone)]
pub struct TaskPushResp {
    pub task_id: String,
    pub count: usize,
}

/// Reply to a status query.
#[derive(Debug, Clone)]
pub struct TaskStatusResp {
    pub _id: String,
    pub status: String,
    pub count: usize,
}

/// One document handed to a clustering task.
#[derive(Debug, PartialEq, Eq, Hash)]
pub struct ClusterContent {
    /// Identifier of the document.
    pub _id: String,
    /// Text of the document.
    pub text: String,
}

impl Clone for ClusterContent {
    fn clone(&self) -> (r: Self)
        ensures
            r == *self,
    {
        ClusterContent { _id: self._id.clone(), text: self.text.clone() }
    }
}

/// A hexadecimal digit in lower case.
pub open spec fn is_lower_hex(c: char) -> bool {
    ('0' <= c && c <= '9') || ('a' <= c && c <= 'f')
}

/// The text of a random identifier: 32 lower-case hexadecimal digits.
pub open spec fn is_random_id(s: Seq<char>) -> bool {
    &&& s.len() == 32
    &&& forall|i: int| 0 <= i < s.len() ==> is_lower_hex(#[trigger] s[i])
}

/// Relies on `uuid::Uuid::new_v4`, written by its `simple` formatter: a fresh
/// random identifier as 32 lower-case hexadecimal digits. Panics only where the
/// operating system gives no random bytes.
#[verifier::external_body]
pub(crate) fn random_id() -> (r: String)
    ensures
        is_random_id(r@),
{
    uuid::Uuid::new_v4().simple().to_string()
}

impl From<String> for ClusterContent {
    /// A document with the text `content` under a fresh random identifier.
    fn from(content: String) -> (r: ClusterContent)
        ensures
            r.text == content,
            is_random_id(r._id@),
    {
        ClusterContent { _id: random_id(), text: content }
    }
}

impl vstd::std_specs::convert::FromSpecImpl<String> for ClusterContent {
    open spec fn obeys_from_spec() -> bool {
        false
    }

    open spec fn from_spec(v: String) -> ClusterContent {
        arbitrary()
    }
}

/// One document for each text, in order, each under a fresh random identifier.
pub fn documents_from_texts(texts: &Vec<String>) -> (r: Vec<ClusterContent>)
    ensures
        r@.len() == texts@.len(),
        forall|i: int|
            0 <= i < r@.len() ==> (#[trigger] r@[i]).text@ == texts@[i]@ && is_random_id(r@[i]._id@),
{
    let mut out: Vec<ClusterContent> = Vec::new();
    let mut i: usize = 0;
    while i < texts.len()
        invariant
            i <= texts@.len(),
            out@.len() == i,
            forall|j: int|
                0 <= j < i ==> (#[trigger] out@[j]).text@ == texts@[j]@ && is_random_id(out@[j]._id@),
        decreases texts@.len() - i,
    {
        let doc = ClusterContent::from(texts[i].clone());
        out.push(doc);
        i = i + 1;
    }
    out
}

} // verus!
