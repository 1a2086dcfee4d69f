use vstd::prelude::*;
use crate::pipeline::create_chunk_prompt_pairs;
use crate::record::strings_view;

verus! {

#[verifier::external_type_specification]
#[verifier::external_body]
pub struct ExPathBuf(std::path::PathBuf);

/// Reads the documents of a folder and cuts them into chunks of up to
/// `chunk_size` characters, as text_splitter measures them.
#[derive(Debug)]
pub struct FileInputAdapter {
    pub input_folder: std::path::PathBuf,
    pub chunk_size: usize,
}

impl FileInputAdapter {
    pub fn new(input_folder: std::path::PathBuf, chunk_size: usize) -> (r: FileInputAdapter)
        ensures
            r.input_folder == input_folder,
            r.chunk_size == chunk_size,
    {
        FileInputAdapter { input_folder, chunk_size }
    }

    /// The chunks of the given documents, under this adapter's chunk size.
    pub fn chunk_documents(&self, documents: &Vec<String>) -> (r: Vec<String>)
        ensures
            strings_view(r@) == chunks_of_all(strings_view(documents@), self.chunk_size as nat),
    {
        split_documents(documents, self.chunk_size)
    }
}

/// The chunks that text_splitter cuts `text` into under a capacity of `size` characters.
pub uninterp spec fn text_chunks(text: Seq<char>, size: nat) -> Seq<Seq<char>>;

/// Relies on text_splitter::TextSplitter::chunks with a character-count capacity:
/// what it yields depends on the text and the capacity alone.
#[verifier::external_body]
fn split_text(text: &str, chunk_size: usize) -> (r: Vec<String>)
    ensures
        strings_view(r@) == text_chunks(text@, chunk_size as nat),
{
    let splitter = text_splitter::TextSplitter::new(chunk_size);
    splitter.chunks(text).map(|s| s.to_string()).collect()
}

/// The chunks of every document, document by document.
pub open spec fn chunks_of_all(documents: Seq<Seq<char>>, size: nat) -> Seq<Seq<char>>
    decreases documents.len(),
{
    if documents.len() == 0 {
        Seq::empty()
    } else {
        chunks_of_all(documents.drop_last(), size) + text_chunks(documents.last(), size)
    }
}

/// Cuts each document into chunks and puts the chunks together in order.
pub fn split_documents(documents: &Vec<String>, chunk_size: usize) -> (r: Vec<String>)
    ensures
        strings_view(r@) == chunks_of_all(strings_view(documents@), chunk_size as nat),
{
    let mut all: Vec<String> = Vec::new();
    let mut i: usize = 0;
    while i < documents.len()
        invariant
            i <= documents@.len(),
            strings_view(all@) == chunks_of_all(strings_view(documents@.subrange(0, i as int)), chunk_size as nat),
        decreases documents@.len() - i,
    {
        let mut chunks = split_text(documents[i].as_str(), chunk_size);
        proof {
            let before = strings_view(documents@.subrange(0, i as int));
            let after = strings_view(documents@.subrange(0, i + 1));
            assert(after.drop_last() =~= before);
            assert(after.last() == documents@[i as int]@);
        }
        let ghost old_all = all@;
        let ghost new_chunks = chunks@;
        all.append(&mut chunks);
        proof {
            assert(strings_view(all@) =~= strings_view(old_all) + strings_view(new_chunks));
        }
        i = i + 1;
    }
    proof {
        assert(documents@.subrange(0, documents@.len() as int) =~= documents@);
    }
    all
}

/// The work list for a set of documents: their chunks, each with every prompt.
pub fn create_pairs(documents: &Vec<String>, chunk_size: usize, prompts: &[String]) -> (r: Vec<(String, String)>)
    ensures
        ({
            let chunks = chunks_of_all(strings_view(documents@), chunk_size as nat);
            &&& r@.len() == chunks.len() * prompts@.len()
            &&& forall|k: int| 0 <= k < r@.len() ==> {
                &&& (#[trigger] r@[k]).0@ == chunks[k / prompts@.len() as int]
                &&& r@[k].1@ == prompts@[k % prompts@.len() as int]@
            }
        }),
{
    let chunks = split_documents(documents, chunk_size);
    let r = create_chunk_prompt_pairs(&chunks, prompts);
    proof {
        assert forall|k: int| 0 <= k < r@.len() implies (#[trigger] r@[k]).0@
            == chunks_of_all(strings_view(documents@), chunk_size as nat)[k / prompts@.len() as int] by {
            let q = k / prompts@.len() as int;
            vstd::arithmetic::div_mod::lemma_div_pos_is_pos(k, prompts@.len() as int);
            vstd::arithmetic::div_mod::lemma_div_is_ordered_by_denominator(k, 1, prompts@.len() as int);
            assert(q < chunks@.len()) by (nonlinear_arith)
                requires
                    k < chunks@.len() * prompts@.len(),
                    q == k / prompts@.len() as int,
                    prompts@.len() > 0,
                    0 <= k,
            ;
            assert(strings_view(chunks@)[q] == chunks@[q]@);
        }
    }
    r
}

/// The work list for a set of documents, as the command line prepares it.
pub fn prepare_chunk_prompt_pairs(documents: &Vec<String>, chunk_size: usize, prompts: &[String]) -> (r: Vec<(String, String)>)
    ensures
        ({
            let chunks = chunks_of_all(strings_view(documents@), chunk_size as nat);
            &&& r@.len() == chunks.len() * prompts@.len()
            &&& forall|k: int| 0 <= k < r@.len() ==> {
                &&& (#[trigger] r@[k]).0@ == chunks[k / prompts@.len() as int]
                &&& r@[k].1@ == prompts@[k % prompts@.len() as int]@
            }
        }),
{
    create_pairs(documents, chunk_size, prompts)
}

} // verus!
