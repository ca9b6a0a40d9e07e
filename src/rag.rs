use vstd::prelude::*;
use vstd::string::{StrSliceExecFns, StringExecFns};
use crate::ids::{parse_id, parsed_id};
use crate::text::opt_text;
use crate::text::{byte_len, texts};

verus! {

/// How many results a search returns when the request names no limit.
pub const DEFAULT_SEARCH_LIMIT: usize = 10;

/// How many chunks a question is answered from when the request names no limit.
pub const DEFAULT_CONTEXT_LIMIT: usize = 5;

/// How many chat messages the history shows.
pub const HISTORY_LIMIT: i64 = 50;

/// At most this many bytes of the context are quoted in an answer.
pub const ANSWER_CONTEXT_BYTES: usize = 500;

#[derive(Debug)]
pub struct SearchRequest {
    pub query: String,
    pub limit: Option<usize>,
}

#[derive(Debug)]
pub struct RagQueryRequest {
    pub query: String,
    pub context_limit: Option<usize>,
}

#[derive(Debug)]
pub struct RagQueryResponse {
    pub answer: String,
    pub sources: Vec<String>,
}

#[derive(Debug)]
pub struct ChatMessage {
    pub role: String,
    pub content: String,
}

/// The number of results a search asks the vector index for.
pub fn search_limit(req: &SearchRequest) -> (r: usize)
    ensures
        r == match req.limit {
            Some(n) => n,
            None => DEFAULT_SEARCH_LIMIT,
        },
{
    match req.limit {
        Some(n) => n,
        None => DEFAULT_SEARCH_LIMIT,
    }
}

/// The number of chunks a question is answered from.
pub fn context_limit(req: &RagQueryRequest) -> (r: usize)
    ensures
        r == match req.context_limit {
            Some(n) => n,
            None => DEFAULT_CONTEXT_LIMIT,
        },
{
    match req.context_limit {
        Some(n) => n,
        None => DEFAULT_CONTEXT_LIMIT,
    }
}

/// The texts joined with a blank line between each two.
pub open spec fn joined(parts: Seq<Seq<char>>) -> Seq<char>
    decreases parts.len(),
{
    if parts.len() == 0 {
        Seq::empty()
    } else if parts.len() == 1 {
        parts[0]
    } else {
        joined(parts.drop_last()) + "\n\n"@ + parts.last()
    }
}

/// The context of an answer: the retrieved chunks, separated by blank lines.
pub fn join_context(parts: &Vec<String>) -> (r: String)
    ensures
        r@ == joined(texts(parts@)),
{
    let ghost ps = texts(parts@);
    let mut out = String::new();
    let mut i: usize = 0;
    while i < parts.len()
        invariant
            ps == texts(parts@),
            i <= parts.len(),
            out@ == joined(ps.take(i as int)),
        decreases parts.len() - i,
    {
        proof {
            assert(ps.take(i + 1).drop_last() =~= ps.take(i as int));
        }
        if i > 0 {
            out.append("\n\n");
        } else {
            proof {
                assert(ps.take(1) =~= seq![ps[0]]);
            }
        }
        out.append(parts[i].as_str());
        i = i + 1;
    }
    proof {
        assert(ps.take(parts.len() as int) =~= ps);
    }
    out
}

/// Adds a file name to an answer's sources unless it is already there.
pub fn add_source(sources: &mut Vec<String>, filename: String)
    ensures
        texts(old(sources)@).contains(filename@) ==> final(sources)@ == old(sources)@,
        !texts(old(sources)@).contains(filename@) ==> final(sources)@ == old(sources)@.push(filename),
{
    let mut i: usize = 0;
    while i < sources.len()
        invariant
            i <= sources.len(),
            forall|j: int| 0 <= j < i ==> sources@[j]@ != filename@,
        decreases sources.len() - i,
    {
        if sources[i] == filename {
            proof {
                assert(texts(sources@)[i as int] == filename@);
            }
            return;
        }
        i = i + 1;
    }
    proof {
        if texts(sources@).contains(filename@) {
            let k = choose|k: int| 0 <= k < texts(sources@).len() && texts(sources@)[k] == filename@;
            assert(sources@[k]@ == filename@);
        }
    }
    sources.push(filename);
}

/// The longest run of whole characters from the start of `s`, from `k` on, whose
/// UTF-8 encoding fits in the quoted-context limit.
pub open spec fn excerpt_end(s: Seq<char>, k: nat) -> nat
    decreases s.len() - k,
{
    if k < s.len() && byte_len(s.take(k + 1 as int)) <= ANSWER_CONTEXT_BYTES {
        excerpt_end(s, (k + 1) as nat)
    } else {
        k
    }
}

/// The part of the context quoted in an answer: as many whole characters from its
/// start as fit in 500 bytes.
pub open spec fn excerpt(s: Seq<char>) -> Seq<char> {
    s.take(excerpt_end(s, 0) as int)
}

pub open spec fn answer_text(query: Seq<char>, context: Seq<char>) -> Seq<char> {
    if context.len() == 0 {
        "I don't have enough information in your uploaded documents to answer: \""@ + query
            + "\".\n\nPlease upload relevant documents first."@
    } else {
        "Based on your documents, here's what I found regarding \""@ + query + "\":\n\n"@
            + excerpt(context)
            + "\n\nNote: This is a simple RAG implementation. For production, integrate with OpenAI or another LLM API."@
    }
}

/// The answer to a question from the retrieved context: a notice when there is
/// none, else the question and the start of the context.
pub fn generate_answer(query: &str, context: &str) -> (r: String)
    ensures
        r@ == answer_text(query@, context@),
{
    if context.is_empty() {
        let answer = String::from_str(
            "I don't have enough information in your uploaded documents to answer: \"",
        );
        let answer = answer.concat(query);
        return answer.concat("\".\n\nPlease upload relevant documents first.");
    }
    let n = context.unicode_len();
    let mut k: usize = 0;
    while k < n && context.substring_char(0, k + 1).len() <= ANSWER_CONTEXT_BYTES
        invariant
            n == context@.len(),
            k <= n,
            excerpt_end(context@, k as nat) == excerpt_end(context@, 0),
        decreases n - k,
    {
        k = k + 1;
    }
    let answer = String::from_str("Based on your documents, here's what I found regarding \"");
    let answer = answer.concat(query);
    let answer = answer.concat("\":\n\n");
    let answer = answer.concat(context.substring_char(0, k));
    answer.concat(
        "\n\nNote: This is a simple RAG implementation. For production, integrate with OpenAI or another LLM API.",
    )
}

/// The sources after one more hit: its file's name, where the file was found
/// and the name is not listed yet.
pub open spec fn with_source(sources: Seq<Seq<char>>, name: Option<Seq<char>>) -> Seq<Seq<char>> {
    match name {
        Some(n) => if sources.contains(n) {
            sources
        } else {
            sources.push(n)
        },
        None => sources,
    }
}

/// The sources collected from `names`, one per hit in order, starting from `acc`.
pub open spec fn sources_from(acc: Seq<Seq<char>>, names: Seq<Option<String>>) -> Seq<Seq<char>>
    decreases names.len(),
{
    if names.len() == 0 {
        acc
    } else {
        sources_from(with_source(acc, opt_text(names[0])), names.drop_first())
    }
}

/// The sources of an answer: the names of the files the hits came from, each
/// once, in the order first met (`None` for a hit whose file was not found).
pub fn rag_sources(names: Vec<Option<String>>) -> (r: Vec<String>)
    ensures
        texts(r@) == sources_from(Seq::empty(), names@),
{
    let ghost all = names@;
    let mut names = names;
    let mut sources: Vec<String> = Vec::new();
    proof {
        assert(texts(sources@) =~= Seq::<Seq<char>>::empty());
    }
    while names.len() > 0
        invariant
            sources_from(texts(sources@), names@) == sources_from(Seq::empty(), all),
        decreases names@.len(),
    {
        let ghost before = names@;
        let ghost before_sources = texts(sources@);
        let name = names.remove(0);
        proof {
            assert(names@ =~= before.drop_first());
        }
        match name {
            Some(n) => {
                add_source(&mut sources, n);
                proof {
                    if before_sources.contains(before[0]->Some_0@) {
                        assert(texts(sources@) =~= before_sources);
                    } else {
                        assert(texts(sources@) =~= before_sources.push(before[0]->Some_0@));
                    }
                }
            },
            None => {},
        }
    }
    sources
}

/// The answer to a question from the retrieved chunks, and its sources from the
/// file name looked up for each hit.
pub fn rag_query(query: &str, chunks: &Vec<String>, names: Vec<Option<String>>) -> (r: RagQueryResponse)
    ensures
        r.answer@ == answer_text(query@, joined(texts(chunks@))),
        texts(r.sources@) == sources_from(Seq::empty(), names@),
{
    let context = join_context(chunks);
    RagQueryResponse { answer: generate_answer(query, context.as_str()), sources: rag_sources(names) }
}

/// The chat history, oldest first, from rows read newest first.
pub fn get_history(rows: Vec<(String, String)>) -> (r: Vec<ChatMessage>)
    ensures
        r@.len() == rows@.len(),
        forall|i: int|
            0 <= i < r@.len() ==> r@[i].role == rows@[rows@.len() - 1 - i].0 && r@[i].content
                == rows@[rows@.len() - 1 - i].1,
{
    let mut rows = rows;
    let ghost newest_first = rows@;
    let mut out: Vec<ChatMessage> = Vec::new();
    while rows.len() > 0
        invariant
            rows@ == newest_first.take(rows@.len() as int),
            out@.len() + rows@.len() == newest_first.len(),
            forall|i: int|
                0 <= i < out@.len() ==> out@[i].role == newest_first[newest_first.len() - 1 - i].0
                    && out@[i].content == newest_first[newest_first.len() - 1 - i].1,
        decreases rows@.len(),
    {
        let (role, content) = rows.pop().unwrap();
        out.push(ChatMessage { role, content });
    }
    out
}

/// A vector-index hit read from its payload: the file id it names and its text.
/// A hit without a readable file id or without a text is dropped.
pub fn search_hit(file_id: Option<String>, text: Option<String>) -> (r: Option<(u128, String)>)
    ensures
        r == match (file_id, text) {
            (Some(f), Some(t)) => match parsed_id(f@) {
                Some(id) => Some((id, t)),
                None => None,
            },
            _ => None,
        },
{
    match (file_id, text) {
        (Some(f), Some(t)) => match parse_id(f.as_str()) {
            Some(id) => Some((id, t)),
            None => None,
        },
        _ => None,
    }
}

/// The hits whose file was found, each with the file's name, in order.
pub open spec fn kept<T>(hits: Seq<(T, Option<String>)>) -> Seq<(T, String)>
    decreases hits.len(),
{
    if hits.len() == 0 {
        Seq::empty()
    } else {
        let rest = kept(hits.drop_first());
        match hits[0].1 {
            Some(n) => seq![(hits[0].0, n)] + rest,
            None => rest,
        }
    }
}

/// Search results: the hits whose file the caller still owns (each hit paired with
/// its file's name as looked up, `None` where not found), with that name.
pub fn search<T>(hits: Vec<(T, Option<String>)>) -> (r: Vec<(T, String)>)
    ensures
        r@ == kept(hits@),
{
    let ghost all_hits = hits@;
    let mut hits = hits;
    let mut out: Vec<(T, String)> = Vec::new();
    while hits.len() > 0
        invariant
            kept(all_hits) == out@ + kept(hits@),
        decreases hits@.len(),
    {
        let ghost before = hits@;
        let (hit, name) = hits.remove(0);
        proof {
            assert(hits@ =~= before.drop_first());
        }
        match name {
            Some(n) => {
                proof {
                    let p = (hit, n);
                    assert(out@.push(p) + kept(hits@) =~= out@ + (seq![p] + kept(hits@)));
                }
                out.push((hit, n));
            },
            None => {},
        }
    }
    proof {
        assert(out@ + kept(hits@) =~= out@);
    }
    out
}

} // verus!
