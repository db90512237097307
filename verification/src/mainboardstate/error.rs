use vstd::prelude::*;

verus! {

/// The message of an item of kind `item`, known by `id`, that was not found.
pub open spec fn not_found_text(item: Seq<char>, id: Seq<char>) -> Seq<char> {
    item + " not found: "@ + id
}

/// An error of the mainboard services, carrying a readable message.
#[derive(Debug)]
pub struct MainboardError {
    pub message: String,
}

impl MainboardError {
    pub fn new() -> (r: MainboardError)
        ensures
            r.message@ == Seq::<char>::empty(),
    {
        MainboardError { message: String::new() }
    }

    pub fn message(self, message: String) -> (r: MainboardError)
        ensures
            r.message@ == message@,
    {
        MainboardError { message }
    }

    /// An item of some kind, known by `id`, was not found.
    pub fn not_found(item: &str, id: &str) -> (r: MainboardError)
        ensures
            r.message@ == not_found_text(item@, id@),
    {
        proof {
            reveal_strlit(" not found: ");
        }
        let message = String::from_str(item).concat(" not found: ").concat(id);
        MainboardError { message }
    }

    pub fn from_error(message: String) -> (r: MainboardError)
        ensures
            r.message@ == message@,
    {
        MainboardError { message }
    }
}

} // verus!
