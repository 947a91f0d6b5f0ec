//! The knowledge documents for AI agents and GenAI prompts: their names and
//! the lookup by name. The texts themselves are bundled by the program that
//! serves them.

use vstd::prelude::*;

use crate::text::{append_str, chars_of, joined, str_eq, string_from_chars};

verus! {

/// A knowledge document.
#[derive(Debug, Clone, Copy, PartialEq, Eq, Structural)]
pub enum Document {
    Communication,
    MessageHandling,
    NeuralMemoryEvents,
    NeuralMemoryRetrieval,
    IntentFieldValidationPlan,
}

/// The names of the documents, in the order they are listed.
pub open spec fn document_names() -> Seq<Seq<char>> {
    seq![
        "communication"@,
        "message-handling"@,
        "neural-memory"@,
        "neural-memory-retrieval"@,
        "intent-field-validation-plan"@,
    ]
}

/// The documents, in the order of their names.
pub open spec fn documents() -> Seq<Document> {
    seq![
        Document::Communication,
        Document::MessageHandling,
        Document::NeuralMemoryEvents,
        Document::NeuralMemoryRetrieval,
        Document::IntentFieldValidationPlan,
    ]
}

impl Document {
    /// The document's name.
    pub open spec fn name_of(self) -> Seq<char> {
        match self {
            Document::Communication => document_names()[0],
            Document::MessageHandling => document_names()[1],
            Document::NeuralMemoryEvents => document_names()[2],
            Document::NeuralMemoryRetrieval => document_names()[3],
            Document::IntentFieldValidationPlan => document_names()[4],
        }
    }

    /// The name under which the document is looked up.
    pub fn name(&self) -> (r: &'static str)
        ensures
            r@ == self.name_of(),
    {
        match self {
            Document::Communication => "communication",
            Document::MessageHandling => "message-handling",
            Document::NeuralMemoryEvents => "neural-memory",
            Document::NeuralMemoryRetrieval => "neural-memory-retrieval",
            Document::IntentFieldValidationPlan => "intent-field-validation-plan",
        }
    }
}

/// The document called `name`, if there is one.
pub open spec fn document_named(name: Seq<char>) -> Option<Document> {
    if name == document_names()[0] {
        Some(Document::Communication)
    } else if name == document_names()[1] {
        Some(Document::MessageHandling)
    } else if name == document_names()[2] {
        Some(Document::NeuralMemoryEvents)
    } else if name == document_names()[3] {
        Some(Document::NeuralMemoryRetrieval)
    } else if name == document_names()[4] {
        Some(Document::IntentFieldValidationPlan)
    } else {
        None
    }
}

/// The texts of a list of string slices.
pub open spec fn str_views(v: Seq<&str>) -> Seq<Seq<char>> {
    v.map_values(|s: &str| s@)
}

/// The names of all the documents.
pub fn list_documents() -> (r: Vec<&'static str>)
    ensures
        str_views(r@) == document_names(),
{
    let r = vec![
        Document::Communication.name(),
        Document::MessageHandling.name(),
        Document::NeuralMemoryEvents.name(),
        Document::NeuralMemoryRetrieval.name(),
        Document::IntentFieldValidationPlan.name(),
    ];
    assert(str_views(r@) =~= document_names());
    r
}

/// A lookup by a name that no document has.
#[derive(Debug)]
pub struct DocumentNotFound {
    pub name: String,
    pub available: Vec<&'static str>,
}

impl DocumentNotFound {
    /// What the lookup reports.
    pub open spec fn text(self) -> Seq<char> {
        "unknown document: '"@ + self.name@ + "'. Available: "@ + joined(
            str_views(self.available@),
            ", "@,
        )
    }

    /// `unknown document: '<name>'. Available: <names, comma separated>`.
    pub fn message(&self) -> (r: String)
        ensures
            r@ == self.text(),
    {
        let mut out = chars_of("unknown document: '");
        append_str(&mut out, self.name.as_str());
        append_str(&mut out, "'. Available: ");
        let n = self.available.len();
        let ghost start = out@;
        let mut i: usize = 0;
        while i < n
            invariant
                i <= n == self.available@.len(),
                out@ == start + joined(str_views(self.available@).take(i as int), ", "@),
            decreases n - i,
        {
            let ghost before = out@;
            if i > 0 {
                append_str(&mut out, ", ");
            }
            append_str(&mut out, self.available[i]);
            proof {
                let parts = str_views(self.available@);
                assert(parts.take(i + 1).drop_last() =~= parts.take(i as int));
                assert(parts.take(i + 1).last() == self.available@[i as int]@);
                if i == 0 {
                    assert(joined(parts.take(1), ", "@) == parts.take(1)[0]);
                }
                assert(out@ =~= start + joined(parts.take(i + 1), ", "@));
            }
            i = i + 1;
        }
        assert(str_views(self.available@).take(n as int) =~= str_views(self.available@));
        string_from_chars(out.as_slice())
    }
}

/// The document called `name`; the error names every document there is.
pub fn get_document(name: &str) -> (r: Result<Document, DocumentNotFound>)
    ensures
        r matches Ok(d) ==> document_named(name@) == Some(d) && d.name_of() == name@,
        r is Err <==> document_named(name@) is None,
        r matches Err(e) ==> e.name@ == name@ && str_views(e.available@) == document_names(),
{
    let all = [
        Document::Communication,
        Document::MessageHandling,
        Document::NeuralMemoryEvents,
        Document::NeuralMemoryRetrieval,
        Document::IntentFieldValidationPlan,
    ];
    assert(all@ =~= documents());
    let mut i: usize = 0;
    while i < 5
        invariant
            i <= 5,
            all@ == documents(),
            forall|j: int| 0 <= j < i ==> document_names()[j] != name@,
        decreases 5 - i,
    {
        let d = all[i];
        assert(d.name_of() == document_names()[i as int]);
        if str_eq(d.name(), name) {
            return Ok(d);
        }
        i = i + 1;
    }
    Err(DocumentNotFound { name: name.to_owned(), available: list_documents() })
}

/// Every listed name finds its document, and that document goes by the
/// name.
pub proof fn lemma_listed_names_found(n: int)
    requires
        0 <= n < 5,
    ensures
        document_named(document_names()[n]) == Some(documents()[n]),
        documents()[n].name_of() == document_names()[n],
{
    assert forall|j: int| 0 <= j < n implies document_names()[j] != document_names()[n] by {
        if document_names()[j] == document_names()[n] {
            lemma_names_distinct(j, n);
        }
    }
}

/// No two documents share a name.
proof fn lemma_names_distinct(i: int, j: int)
    requires
        0 <= i < 5,
        0 <= j < 5,
        document_names()[i] == document_names()[j],
    ensures
        i == j,
{
    reveal_strlit("communication");
    reveal_strlit("message-handling");
    reveal_strlit("neural-memory");
    reveal_strlit("neural-memory-retrieval");
    reveal_strlit("intent-field-validation-plan");
    if i != j {
        let a = document_names()[i];
        let b = document_names()[j];
        assert(a.len() != b.len() || a[0] != b[0]);
    }
}

} // verus!
