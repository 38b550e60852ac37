//! The report request and the prompt rendered from it.
use vstd::prelude::*;
use crate::text::{decode_lossy, lemma_trimmed_empty, lossy_text, trim_text, trimmed};

verus! {

/// One submission: a report type, the payer's denial text, and the attached
/// files as (file name, content) in the order they were submitted.
#[derive(Debug, Clone)]
pub struct ReportRequest {
    pub report_type: String,
    pub denial_text: String,
    pub files: Vec<(String, Vec<u8>)>,
}

impl Default for ReportRequest {
    /// An empty request: no report type, no denial text, no files.
    fn default() -> (r: ReportRequest)
        ensures
            r.report_type@.len() == 0,
            r.denial_text@.len() == 0,
            r.files@.len() == 0,
    {
        ReportRequest { report_type: String::new(), denial_text: String::new(), files: Vec::new() }
    }
}

/// The value handed back to the caller: the generated report text.
#[derive(Debug, Clone, PartialEq, Eq)]
pub struct ReportResponse {
    pub report: String,
}

/// The fixed instruction that opens every prompt.
pub open spec fn preamble() -> Seq<char> {
    "You are a medical documentation expert. Using the following information, produce a concise, professional, and insurance-ready clinical report.\n\n"@
}

/// The sentence used when the request carries no context at all.
pub open spec fn no_context() -> Seq<char> {
    "No additional context was provided."@
}

pub open spec fn type_line(report_type: Seq<char>) -> Seq<char> {
    "Report type: "@ + trimmed(report_type)
}

pub open spec fn denial_line(denial_text: Seq<char>) -> Seq<char> {
    "Denial details provided by payer: "@ + trimmed(denial_text)
}

pub open spec fn files_header() -> Seq<char> {
    "Attached clinical notes:\n"@
}

/// The delimited block of one attached file.
pub open spec fn file_block(file: (String, Vec<u8>)) -> Seq<char> {
    "--- "@ + file.0@ + " ---\n"@ + trimmed(lossy_text(file.1@)) + "\n"@
}

/// The blocks of all files, in submission order.
pub open spec fn file_blocks(files: Seq<(String, Vec<u8>)>) -> Seq<char>
    decreases files.len(),
{
    if files.len() == 0 {
        Seq::empty()
    } else {
        file_blocks(files.drop_last()) + file_block(files.last())
    }
}

pub open spec fn files_section(files: Seq<(String, Vec<u8>)>) -> Seq<char> {
    files_header() + file_blocks(files)
}

/// The sections that apply to a request, in order; the fallback sentence when none does.
pub open spec fn sections(req: ReportRequest) -> Seq<Seq<char>> {
    let t = if trimmed(req.report_type@).len() > 0 {
        seq![type_line(req.report_type@)]
    } else {
        Seq::empty()
    };
    let d = if trimmed(req.denial_text@).len() > 0 {
        seq![denial_line(req.denial_text@)]
    } else {
        Seq::empty()
    };
    let f = if req.files@.len() > 0 {
        seq![files_section(req.files@)]
    } else {
        Seq::empty()
    };
    let all = t + d + f;
    if all.len() == 0 {
        seq![no_context()]
    } else {
        all
    }
}

/// The parts joined with `sep` between each two neighbours.
pub open spec fn joined(parts: Seq<Seq<char>>, sep: Seq<char>) -> Seq<char>
    decreases parts.len(),
{
    if parts.len() == 0 {
        Seq::empty()
    } else if parts.len() == 1 {
        parts[0]
    } else {
        joined(parts.drop_last(), sep) + sep + parts.last()
    }
}

pub open spec fn section_gap() -> Seq<char> {
    "\n\n"@
}

/// The prompt for a request: the preamble, then its sections separated by blank lines.
pub open spec fn prompt_text(req: ReportRequest) -> Seq<char> {
    preamble() + joined(sections(req), section_gap())
}

pub open spec fn views(parts: Seq<String>) -> Seq<Seq<char>> {
    parts.map_values(|p: String| p@)
}

/// `t` occurs in `s` as a contiguous run.
pub open spec fn occurs_in(t: Seq<char>, s: Seq<char>) -> bool {
    exists|i: int| 0 <= i && i + t.len() <= s.len() && #[trigger] s.subrange(i, i + t.len()) == t
}

pub open spec fn starts_with(s: Seq<char>, p: Seq<char>) -> bool {
    p.len() <= s.len() && s.take(p.len() as int) == p
}

/// Where the block of the `i`-th file starts in the prompt.
pub open spec fn block_offset(req: ReportRequest, i: int) -> int {
    prompt_text(req).len() - file_blocks(req.files@).len() + file_blocks(req.files@.take(i)).len()
}

proof fn lemma_joined_first(parts: Seq<Seq<char>>, sep: Seq<char>)
    requires
        parts.len() >= 1,
    ensures
        starts_with(joined(parts, sep), parts[0]),
    decreases parts.len(),
{
    if parts.len() > 1 {
        let rest = parts.drop_last();
        lemma_joined_first(rest, sep);
        assert(rest[0] == parts[0]);
        assert(joined(parts, sep).take(parts[0].len() as int) =~= joined(rest, sep).take(
            parts[0].len() as int,
        ));
    } else {
        assert(parts[0].take(parts[0].len() as int) =~= parts[0]);
    }
}

proof fn lemma_joined_last(parts: Seq<Seq<char>>, sep: Seq<char>)
    requires
        parts.len() >= 1,
    ensures
        parts.last().len() <= joined(parts, sep).len(),
        joined(parts, sep).subrange(
            joined(parts, sep).len() - parts.last().len(),
            joined(parts, sep).len() as int,
        ) == parts.last(),
{
    let j = joined(parts, sep);
    assert(j.subrange(j.len() - parts.last().len(), j.len() as int) =~= parts.last());
}

proof fn lemma_blocks_prefix(files: Seq<(String, Vec<u8>)>, k: int)
    requires
        0 <= k <= files.len(),
    ensures
        starts_with(file_blocks(files), file_blocks(files.take(k))),
    decreases files.len(),
{
    if files.len() > k {
        let rest = files.drop_last();
        assert(rest.take(k) =~= files.take(k));
        lemma_blocks_prefix(rest, k);
        let n = file_blocks(files.take(k)).len() as int;
        assert(file_blocks(files).take(n) =~= file_blocks(rest).take(n));
    } else {
        assert(files.take(k) =~= files);
        assert(file_blocks(files).take(file_blocks(files).len() as int) =~= file_blocks(files));
    }
}

/// A request with no report type, no denial text and no files renders as the
/// preamble followed by the fallback sentence.
pub proof fn lemma_empty_request_prompt(req: ReportRequest)
    requires
        req.report_type@.len() == 0,
        req.denial_text@.len() == 0,
        req.files@.len() == 0,
    ensures
        prompt_text(req) == preamble() + no_context(),
{
    lemma_trimmed_empty(req.report_type@);
    lemma_trimmed_empty(req.denial_text@);
    assert(sections(req) =~= seq![no_context()]);
}

/// A report type that is not blank after trimming appears, trimmed, verbatim in
/// the prompt; a blank one leaves no section that is a report-type line.
pub proof fn lemma_report_type_shown(req: ReportRequest)
    ensures
        trimmed(req.report_type@).len() > 0 ==> occurs_in(trimmed(req.report_type@), prompt_text(req)),
        trimmed(req.report_type@).len() == 0 ==> forall|k: int|
            0 <= k < sections(req).len() ==> !starts_with(#[trigger] sections(req)[k], "Report type: "@),
{
    let t = trimmed(req.report_type@);
    let parts = sections(req);
    let p = prompt_text(req);
    reveal_strlit("Report type: ");
    if t.len() > 0 {
        assert(parts[0] == type_line(req.report_type@));
        lemma_joined_first(parts, section_gap());
        let j = joined(parts, section_gap());
        let line = type_line(req.report_type@);
        let head = "Report type: "@.len() as int;
        let at = preamble().len() as int + head;
        assert(j.take(line.len() as int) == line);
        assert forall|k: int| 0 <= k < t.len() implies p[at + k] == t[k] by {
            assert(p[at + k] == j[head + k]);
            assert(j.take(line.len() as int)[head + k] == j[head + k]);
            assert(line[head + k] == t[k]);
        }
        assert(p.subrange(at, at + t.len()) =~= t);
    } else {
        reveal_strlit("Denial details provided by payer: ");
        reveal_strlit("Attached clinical notes:\n");
        reveal_strlit("No additional context was provided.");
        assert forall|k: int| 0 <= k < parts.len() implies !starts_with(#[trigger] parts[k], "Report type: "@) by {
            if starts_with(parts[k], "Report type: "@) {
                assert(parts[k][0] == "Report type: "@[0]);
                assert(parts[k][0] != 'R');
            }
        }
    }
}

proof fn lemma_prompt_ends_with_blocks(req: ReportRequest)
    requires
        req.files@.len() > 0,
    ensures
        file_blocks(req.files@).len() <= prompt_text(req).len(),
        forall|m: int|
            0 <= m < file_blocks(req.files@).len() ==> prompt_text(req)[prompt_text(req).len()
                - file_blocks(req.files@).len() + m] == #[trigger] file_blocks(req.files@)[m],
{
    let files = req.files@;
    let parts = sections(req);
    let j = joined(parts, section_gap());
    let fs = files_section(files);
    assert(parts.last() == fs);
    lemma_joined_last(parts, section_gap());
    let blocks = file_blocks(files);
    assert forall|m: int| 0 <= m < blocks.len() implies prompt_text(req)[prompt_text(req).len()
        - blocks.len() + m] == #[trigger] blocks[m] by {
        let h = files_header().len() as int;
        assert(fs[h + m] == blocks[m]);
        assert(j.subrange(j.len() - fs.len(), j.len() as int)[h + m] == fs[h + m]);
    }
}

proof fn lemma_block_within(files: Seq<(String, Vec<u8>)>, i: int)
    requires
        0 <= i < files.len(),
    ensures
        file_blocks(files.take(i)).len() + file_block(files[i]).len() <= file_blocks(files).len(),
        forall|m: int|
            0 <= m < file_block(files[i]).len() ==> file_blocks(files)[file_blocks(
                files.take(i),
            ).len() + m] == #[trigger] file_block(files[i])[m],
{
    lemma_blocks_prefix(files, i + 1);
    assert(files.take(i + 1).drop_last() =~= files.take(i));
    let before = file_blocks(files.take(i));
    let block = file_block(files[i]);
    let upto = file_blocks(files.take(i + 1));
    assert(upto == before + block);
    assert forall|m: int| 0 <= m < block.len() implies file_blocks(files)[before.len() + m]
        == #[trigger] block[m] by {
        assert(upto[before.len() + m] == block[m]);
        assert(file_blocks(files).take(upto.len() as int)[before.len() + m] == upto[before.len()
            + m]);
    }
}

/// Every attached file has its own delimited block in the prompt, holding its
/// name and trimmed content, and the blocks follow the submission order: the
/// block of a file ends before the block of any later file begins.
pub proof fn lemma_files_in_order(req: ReportRequest, i: int)
    requires
        0 <= i < req.files@.len(),
    ensures
        0 <= block_offset(req, i),
        block_offset(req, i) + file_block(req.files@[i]).len() <= prompt_text(req).len(),
        prompt_text(req).subrange(
            block_offset(req, i),
            block_offset(req, i) + file_block(req.files@[i]).len(),
        ) == file_block(req.files@[i]),
        forall|j: int|
            i < j < req.files@.len() ==> block_offset(req, i) + file_block(req.files@[i]).len()
                <= #[trigger] block_offset(req, j),
{
    let files = req.files@;
    let p = prompt_text(req);
    let blocks = file_blocks(files);
    let block = file_block(files[i]);
    lemma_prompt_ends_with_blocks(req);
    lemma_block_within(files, i);
    let at = block_offset(req, i);
    let before = file_blocks(files.take(i)).len() as int;
    assert forall|m: int| 0 <= m < block.len() implies p.subrange(at, at + block.len())[m]
        == block[m] by {
        assert(blocks[before + m] == block[m]);
        assert(p[p.len() - blocks.len() + (before + m)] == blocks[before + m]);
    }
    assert(p.subrange(at, at + block.len()) =~= block);
    assert forall|j: int| i < j < files.len() implies block_offset(req, i) + block.len()
        <= #[trigger] block_offset(req, j) by {
        lemma_blocks_prefix(files.take(j), i + 1);
        assert(files.take(j).take(i + 1) =~= files.take(i + 1));
        assert(files.take(i + 1).drop_last() =~= files.take(i));
    }
}

/// Joins the parts with `sep` between each two neighbours.
fn join_parts(parts: &Vec<String>, sep: &str) -> (r: String)
    ensures
        r@ == joined(views(parts@), sep@),
{
    let mut out = String::new();
    let mut i: usize = 0;
    while i < parts.len()
        invariant
            i <= parts.len(),
            out@ == joined(views(parts@).take(i as int), sep@),
        decreases parts.len() - i,
    {
        proof {
            let v = views(parts@);
            assert(v.take(i + 1).drop_last() =~= v.take(i as int));
            assert(v.take(i + 1).last() == parts@[i as int]@);
            if i == 0 {
                assert(v.take(1)[0] == parts@[0]@);
            }
        }
        if i > 0 {
            out.append(sep);
        }
        out.append(parts[i].as_str());
        i = i + 1;
    }
    assert(views(parts@).take(parts.len() as int) =~= views(parts@));
    out
}

/// The file section: the header, then one block per file in order.
fn render_files(files: &Vec<(String, Vec<u8>)>) -> (r: String)
    ensures
        r@ == files_section(files@),
{
    let mut out = String::from_str("Attached clinical notes:\n");
    let mut i: usize = 0;
    while i < files.len()
        invariant
            i <= files.len(),
            out@ == files_header() + file_blocks(files@.take(i as int)),
        decreases files.len() - i,
    {
        proof {
            assert(files@.take(i + 1).drop_last() =~= files@.take(i as int));
            assert(files@.take(i + 1).last() == files@[i as int]);
        }
        let content = decode_lossy(&files[i].1);
        let content = trim_text(content.as_str());
        out.append("--- ");
        out.append(files[i].0.as_str());
        out.append(" ---\n");
        out.append(content.as_str());
        out.append("\n");
        proof {
            assert(out@ =~= files_header() + file_blocks(files@.take(i + 1)));
        }
        i = i + 1;
    }
    assert(files@.take(files.len() as int) =~= files@);
    out
}

/// Renders the instruction prompt for a request.
pub fn build_prompt(request: &ReportRequest) -> (r: String)
    ensures
        r@ == prompt_text(*request),
{
    let mut parts: Vec<String> = Vec::new();
    let report_type = trim_text(request.report_type.as_str());
    if report_type.as_str().unicode_len() > 0 {
        parts.push(String::from_str("Report type: ").concat(report_type.as_str()));
    }
    let denial_text = trim_text(request.denial_text.as_str());
    if denial_text.as_str().unicode_len() > 0 {
        parts.push(String::from_str("Denial details provided by payer: ").concat(denial_text.as_str()));
    }
    if request.files.len() > 0 {
        parts.push(render_files(&request.files));
    }
    if parts.len() == 0 {
        parts.push(String::from_str("No additional context was provided."));
    }
    proof {
        assert(views(parts@) =~= sections(*request));
    }
    let body = join_parts(&parts, "\n\n");
    String::from_str("You are a medical documentation expert. Using the following information, produce a concise, professional, and insurance-ready clinical report.\n\n").concat(body.as_str())
}

} // verus!
