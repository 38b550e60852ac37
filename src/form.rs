//! Building a report request from the parts of a multipart submission.
use vstd::prelude::*;
use vstd::utf8::{decode_utf8, valid_utf8};
use crate::prompt::ReportRequest;
use crate::text::decode_strict;

verus! {

/// One part of a multipart submission, read in full.
#[derive(Debug, Clone)]
pub struct FormPart {
    /// The part's name, if its metadata gives one.
    pub name: Option<String>,
    /// The file name, if its metadata gives one.
    pub filename: Option<String>,
    pub data: Vec<u8>,
}

/// Why a submission was rejected.
#[derive(Debug, Clone, PartialEq, Eq)]
pub enum FormError {
    /// The named text field does not hold valid UTF-8.
    MalformedField(String),
}

impl FormError {
    /// Describes the error, naming the offending field.
    pub fn message(&self) -> (r: String)
        ensures
            r@ == "Invalid UTF-8 in field `"@ + self->MalformedField_0@ + "`"@,
    {
        match self {
            FormError::MalformedField(field) => String::from_str("Invalid UTF-8 in field `").concat(
                field.as_str(),
            ).concat("`"),
        }
    }
}

pub open spec fn named(part: FormPart, name: Seq<char>) -> bool {
    part.name is Some && part.name->Some_0@ == name
}

pub open spec fn is_text_field(part: FormPart) -> bool {
    named(part, "report_type"@) || named(part, "denial_text"@)
}

/// The name of the first text field whose content is not valid UTF-8, if any.
pub open spec fn first_malformed(parts: Seq<FormPart>) -> Option<Seq<char>>
    decreases parts.len(),
{
    if parts.len() == 0 {
        None
    } else if first_malformed(parts.drop_last()) is Some {
        first_malformed(parts.drop_last())
    } else if is_text_field(parts.last()) && !valid_utf8(parts.last().data@) {
        Some(parts.last().name->Some_0@)
    } else {
        None
    }
}

/// The decoded content of the last part with this name; empty when there is none.
pub open spec fn field_value(parts: Seq<FormPart>, name: Seq<char>) -> Seq<char>
    decreases parts.len(),
{
    if parts.len() == 0 {
        Seq::empty()
    } else if named(parts.last(), name) {
        decode_utf8(parts.last().data@)
    } else {
        field_value(parts.drop_last(), name)
    }
}

pub open spec fn upload_name(part: FormPart) -> Seq<char> {
    match part.filename {
        Some(f) => f@,
        None => "file.txt"@,
    }
}

/// The uploaded files, as (file name, content), in the order of their parts.
pub open spec fn uploads(parts: Seq<FormPart>) -> Seq<(Seq<char>, Seq<u8>)>
    decreases parts.len(),
{
    if parts.len() == 0 {
        Seq::empty()
    } else if named(parts.last(), "files[]"@) {
        uploads(parts.drop_last()).push((upload_name(parts.last()), parts.last().data@))
    } else {
        uploads(parts.drop_last())
    }
}

pub open spec fn file_views(files: Seq<(String, Vec<u8>)>) -> Seq<(Seq<char>, Seq<u8>)> {
    files.map_values(|f: (String, Vec<u8>)| (f.0@, f.1@))
}

proof fn lemma_field_names_differ()
    ensures
        "report_type"@ != "denial_text"@,
        "report_type"@ != "files[]"@,
        "denial_text"@ != "files[]"@,
{
    reveal_strlit("report_type");
    reveal_strlit("denial_text");
    reveal_strlit("files[]");
    assert("report_type"@[0] != "denial_text"@[0]);
}

proof fn lemma_malformed_prefix(parts: Seq<FormPart>, k: int)
    requires
        0 <= k <= parts.len(),
        first_malformed(parts.take(k)) is Some,
    ensures
        first_malformed(parts) == first_malformed(parts.take(k)),
    decreases parts.len(),
{
    if parts.len() > k {
        assert(parts.drop_last().take(k) =~= parts.take(k));
        lemma_malformed_prefix(parts.drop_last(), k);
    } else {
        assert(parts.take(k) =~= parts);
    }
}

fn is_named(part: &FormPart, name: &str) -> (r: bool)
    ensures
        r == named(*part, name@),
{
    match &part.name {
        Some(n) => *n == String::from_str(name),
        None => false,
    }
}

/// Collects the request from the submitted parts: `report_type` and `denial_text`
/// take the last such part and must be valid UTF-8, each `files[]` part adds a
/// file in order, and other parts are ignored.
pub fn parse_report_request(parts: &Vec<FormPart>) -> (r: Result<ReportRequest, FormError>)
    ensures
        r is Err <==> first_malformed(parts@) is Some,
        r is Err ==> r->Err_0->MalformedField_0@ == first_malformed(parts@)->Some_0,
        r is Ok ==> {
            let req = r->Ok_0;
            &&& req.report_type@ == field_value(parts@, "report_type"@)
            &&& req.denial_text@ == field_value(parts@, "denial_text"@)
            &&& file_views(req.files@) == uploads(parts@)
        },
{
    let mut report_type = String::new();
    let mut denial_text = String::new();
    let mut files: Vec<(String, Vec<u8>)> = Vec::new();
    let mut i: usize = 0;
    while i < parts.len()
        invariant
            i <= parts.len(),
            first_malformed(parts@.take(i as int)) is None,
            report_type@ == field_value(parts@.take(i as int), "report_type"@),
            denial_text@ == field_value(parts@.take(i as int), "denial_text"@),
            file_views(files@) == uploads(parts@.take(i as int)),
        decreases parts.len() - i,
    {
        let part = &parts[i];
        proof {
            assert(parts@.take(i + 1).drop_last() =~= parts@.take(i as int));
            assert(parts@.take(i + 1).last() == parts@[i as int]);
            lemma_field_names_differ();
        }
        let is_type = is_named(part, "report_type");
        let is_denial = is_named(part, "denial_text");
        if is_type || is_denial {
            match decode_strict(part.data.clone()) {
                Some(text) => {
                    if is_type {
                        report_type = text;
                    } else {
                        denial_text = text;
                    }
                },
                None => {
                    proof {
                        lemma_malformed_prefix(parts@, i + 1);
                    }
                    let field = if is_type {
                        String::from_str("report_type")
                    } else {
                        String::from_str("denial_text")
                    };
                    return Err(FormError::MalformedField(field));
                },
            }
        } else if is_named(part, "files[]") {
            let filename = match &part.filename {
                Some(f) => f.clone(),
                None => String::from_str("file.txt"),
            };
            files.push((filename, part.data.clone()));
            proof {
                assert(file_views(files@) =~= uploads(parts@.take(i + 1)));
            }
        }
        i = i + 1;
    }
    assert(parts@.take(parts.len() as int) =~= parts@);
    Ok(ReportRequest { report_type, denial_text, files })
}

} // verus!
