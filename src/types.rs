use vstd::prelude::*;

verus! {

/// One homework item in the flat form that callers consume.
pub struct Homework {
    pub date: String,
    pub created_at: String,
    pub subject_name: String,
    pub task: String,
    pub test_urls: Vec<Vec<Option<String>>>,
}

/// The text of an optional string.
pub open spec fn opt_text(o: Option<String>) -> Option<Seq<char>> {
    match o {
        Some(s) => Some(s@),
        None => None,
    }
}

/// The text of each optional string of a list.
pub open spec fn url_list_view(v: Vec<Option<String>>) -> Seq<Option<Seq<char>>> {
    v@.map_values(|o: Option<String>| opt_text(o))
}

/// Mathematical form of a `Homework` record.
pub struct HomeworkView {
    pub date: Seq<char>,
    pub created_at: Seq<char>,
    pub subject_name: Seq<char>,
    pub task: Seq<char>,
    pub test_urls: Seq<Seq<Option<Seq<char>>>>,
}

impl View for Homework {
    type V = HomeworkView;

    open spec fn view(&self) -> HomeworkView {
        HomeworkView {
            date: self.date@,
            created_at: self.created_at@,
            subject_name: self.subject_name@,
            task: self.task@,
            test_urls: self.test_urls@.map_values(|v: Vec<Option<String>>| url_list_view(v)),
        }
    }
}

} // verus!
