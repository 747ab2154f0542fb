use vstd::prelude::*;

use vstd::string::StringExecFns;

use crate::date::{day_text, format_day, Day};
use crate::types::{opt_text, url_list_view, Homework, HomeworkView};

verus! {

/// An attachment of a student's answer; the service's fields are not read.
pub struct Attachment {}

/// A remote attachment of a student's answer; the service's fields are not read.
pub struct RemoteAttachment {}

pub struct Subject {
    pub id: u64,
    pub name: String,
    pub exam_name: String,
}

pub struct HomeworkData {
    pub id: u64,
    pub created_at: String,
    pub updated_at: String,
    pub deleted_at: String,
    pub deleted_by: String,
    pub teacher_id: u64,
    pub subject_id: u32,
    pub is_required: bool,
    pub mark_required: bool,
    pub group_id: u64,
    pub date_assigned_on: String,
    pub date_prepared_for: String,
    pub subject: Subject,
}

/// One link of a material.
pub struct EomUrls {
    pub url_type: String,
    pub url: String,
    pub profile_type: String,
}

/// An electronic online material attached to a homework entry.
pub struct EomUrl {
    pub material_id: u64,
    pub material_type: String,
    pub content_type: String,
    pub urls: Vec<EomUrls>,
}

pub struct HomeworkEntry {
    pub id: u64,
    pub created_at: String,
    pub updated_at: String,
    pub deleted_at: String,
    pub homework_id: u64,
    pub description: String,
    pub duration: u32,
    pub no_duration: bool,
    pub homework: HomeworkData,
    pub attachments: Vec<Attachment>,
    pub homework_entry_student_answer: String,
    pub controllable_items: Vec<u64>,
    pub homework_entry_comments: Vec<String>,
    pub student_ids: Vec<u64>,
    pub attachment_ids: Vec<u64>,
    pub controllable_item_ids: Vec<u64>,
    pub books: String,
    pub tests: String,
    pub scripts: String,
    pub data: String,
    pub update_comment: String,
    pub game_apps: String,
    pub atomic_objects: String,
    pub related_materials: String,
    pub eom_urls: Vec<EomUrl>,
    pub long_term: bool,
    pub is_digital_homework: bool,
}

/// A student's view of one homework entry, as the service lists it.
pub struct ClientHomework {
    pub id: u64,
    pub created_at: String,
    pub updated_at: String,
    pub deleted_at: String,
    pub student_id: u64,
    pub homework_entry_id: u64,
    pub student_name: String,
    pub comment: String,
    pub is_ready: bool,
    pub attachments: Vec<Attachment>,
    pub remote_attachments: Vec<RemoteAttachment>,
    pub homework_entry: HomeworkEntry,
    pub attachment_ids: Vec<u64>,
}

/// The links of one material, each as a present value, in source order.
pub open spec fn material_links(m: EomUrl) -> Seq<Option<Seq<char>>> {
    m.urls@.map_values(|u: EomUrls| Some(u.url@))
}

/// The flat record that one listed homework maps to.
pub open spec fn homework_of(c: ClientHomework) -> HomeworkView {
    HomeworkView {
        date: c.homework_entry.homework.date_prepared_for@,
        created_at: c.created_at@,
        subject_name: c.homework_entry.homework.subject.name@,
        task: c.homework_entry.description@,
        test_urls: c.homework_entry.eom_urls@.map_values(|m: EomUrl| material_links(m)),
    }
}

/// The links of one material, in source order.
pub fn material_urls(m: &EomUrl) -> (r: Vec<Option<String>>)
    ensures
        url_list_view(r) == material_links(*m),
{
    let mut r: Vec<Option<String>> = Vec::new();
    let mut j: usize = 0;
    while j < m.urls.len()
        invariant
            j <= m.urls@.len(),
            r@.len() == j,
            forall|k: int| 0 <= k < j ==> opt_text(#[trigger] r@[k]) == Some(m.urls@[k].url@),
        decreases m.urls@.len() - j,
    {
        r.push(Some(m.urls[j].url.clone()));
        j = j + 1;
    }
    assert(url_list_view(r) =~= material_links(*m));
    r
}

/// Maps one listed homework to its flat record.
pub fn to_homework(c: &ClientHomework) -> (r: Homework)
    ensures
        r@ == homework_of(*c),
{
    let materials = &c.homework_entry.eom_urls;
    let mut test_urls: Vec<Vec<Option<String>>> = Vec::new();
    let mut i: usize = 0;
    while i < materials.len()
        invariant
            i <= materials@.len(),
            test_urls@.len() == i,
            forall|k: int|
                0 <= k < i ==> url_list_view(#[trigger] test_urls@[k]) == material_links(
                    materials@[k],
                ),
        decreases materials@.len() - i,
    {
        test_urls.push(material_urls(&materials[i]));
        i = i + 1;
    }
    let r = Homework {
        date: c.homework_entry.homework.date_prepared_for.clone(),
        created_at: c.created_at.clone(),
        subject_name: c.homework_entry.homework.subject.name.clone(),
        task: c.homework_entry.description.clone(),
        test_urls,
    };
    assert(r@.test_urls =~= homework_of(*c).test_urls);
    r
}

/// Maps each listed homework, in order, to its flat record.
pub fn map_homework(records: &Vec<ClientHomework>) -> (r: Vec<Homework>)
    ensures
        r@.len() == records@.len(),
        forall|i: int| 0 <= i < records@.len() ==> (#[trigger] r@[i])@ == homework_of(records@[i]),
{
    let mut r: Vec<Homework> = Vec::new();
    let mut i: usize = 0;
    while i < records.len()
        invariant
            i <= records@.len(),
            r@.len() == i,
            forall|k: int| 0 <= k < i ==> (#[trigger] r@[k])@ == homework_of(records@[k]),
        decreases records@.len() - i,
    {
        r.push(to_homework(&records[i]));
        i = i + 1;
    }
    r
}

/// The date bounds of a homework listing, each written `DD.MM.YYYY`.
pub struct HomeworkQuery {
    pub begin_prepared_date: String,
    pub end_prepared_date: String,
}

/// The day a bound stands for: the given one, else today.
pub open spec fn bound_day(bound: Option<Day>, today: Day) -> Day {
    match bound {
        Some(d) => d,
        None => today,
    }
}

/// The texts of the first and the last day of a listing.
pub open spec fn query_texts(from: Option<Day>, to: Option<Day>, today: Day) -> (Seq<char>, Seq<char>) {
    (day_text(bound_day(from, today)), day_text(bound_day(to, today)))
}

/// A bound that is given is a real day.
pub open spec fn bound_wf(bound: Option<Day>) -> bool {
    match bound {
        Some(d) => d.wf(),
        None => true,
    }
}

/// The bounds of a listing from `from` to `to`; a missing bound is `today`.
pub fn homework_query(from: Option<Day>, to: Option<Day>, today: Day) -> (q: HomeworkQuery)
    requires
        today.wf(),
        bound_wf(from),
        bound_wf(to),
    ensures
        (q.begin_prepared_date@, q.end_prepared_date@) == query_texts(from, to, today),
{
    let first = match from {
        Some(d) => d,
        None => today,
    };
    let last = match to {
        Some(d) => d,
        None => today,
    };
    HomeworkQuery { begin_prepared_date: format_day(&first), end_prepared_date: format_day(&last) }
}

/// The bounds of a listing of the one day `at`.
pub fn homework_query_at(at: Day) -> (q: HomeworkQuery)
    requires
        at.wf(),
    ensures
        q.begin_prepared_date@ == day_text(at),
        q.end_prepared_date@ == day_text(at),
{
    homework_query(Some(at), Some(at), at)
}

/// Listing the one day `d` asks for the same bounds as listing from `d` to `d`,
/// whatever day it is.
pub proof fn lemma_single_day_query(d: Day, today: Day)
    ensures
        query_texts(Some(d), Some(d), today) == (day_text(d), day_text(d)),
{
}

/// A listing without bounds asks for today only.
pub proof fn lemma_unbounded_query_is_today(today: Day)
    ensures
        query_texts(None, None, today) == (day_text(today), day_text(today)),
{
}

/// The text of a name and a value.
pub open spec fn pair_view(p: (String, String)) -> (Seq<char>, Seq<char>) {
    (p.0@, p.1@)
}

/// The texts of a list of names and values.
pub open spec fn pairs_view(v: Vec<(String, String)>) -> Seq<(Seq<char>, Seq<char>)> {
    v@.map_values(|p: (String, String)| pair_view(p))
}

impl HomeworkQuery {
    /// The query parameters of a listing, in the order the service takes them.
    pub fn to_pairs(&self) -> (r: Vec<(String, String)>)
        ensures
            pairs_view(r) == seq![
                ("begin_prepared_date"@, self.begin_prepared_date@),
                ("end_prepared_date"@, self.end_prepared_date@),
            ],
    {
        let mut r: Vec<(String, String)> = Vec::new();
        r.push((String::from_str("begin_prepared_date"), self.begin_prepared_date.clone()));
        r.push((String::from_str("end_prepared_date"), self.end_prepared_date.clone()));
        assert(pairs_view(r) =~= seq![
            ("begin_prepared_date"@, self.begin_prepared_date@),
            ("end_prepared_date"@, self.end_prepared_date@),
        ]);
        r
    }
}

/// A GET request to the diary service: where it goes, its headers and its query.
pub struct ApiRequest {
    pub url: String,
    pub headers: Vec<(String, String)>,
    pub query: Vec<(String, String)>,
}

/// The host every request goes to.
pub const BASE_URL: &'static str = "https://dnevnik.mos.ru";

/// The path of the homework listing.
pub const HOMEWORK_PATH: &'static str = "/core/api/student_homeworks";

/// The browser name that requests carry.
pub const USER_AGENT: &'static str = "Mozilla/5.0 (X11; Ubuntu; Linux x86_64) AppleWebKit/537.36 (KHTML, like Gecko) Chrome/80.0.3987.87 Safari/537.36 RuxitSynthetic/1.0 v8662719366318635631 t6281935149377429786 ";

/// The headers of every request made with these credentials.
pub open spec fn request_headers(c: ClientView) -> Seq<(Seq<char>, Seq<char>)> {
    seq![
        ("Auth-Token"@, c.token),
        ("Content-Type"@, "application/json"@),
        ("Profile-Id"@, c.profile_id),
        ("User-Agent"@, USER_AGENT@),
        ("Accept"@, "*/*"@),
    ]
}

/// The materials of an entry with m references, the j-th holding n_j links, map to
/// m lists of links, the j-th of length n_j.
pub proof fn lemma_test_urls_shape(c: ClientHomework)
    ensures
        homework_of(c).test_urls.len() == c.homework_entry.eom_urls@.len(),
        forall|j: int|
            0 <= j < c.homework_entry.eom_urls@.len() ==> (#[trigger] homework_of(c).test_urls[j]).len()
                == c.homework_entry.eom_urls@[j].urls@.len(),
{
}

/// Mathematical form of a `Client`: its credentials.
pub struct ClientView {
    pub token: Seq<char>,
    pub profile_id: Seq<char>,
}

/// Holds the credentials with which the diary service is queried.
#[derive(Clone)]
pub struct Client {
    token: String,
    profile_id: String,
}

impl View for Client {
    type V = ClientView;

    closed spec fn view(&self) -> ClientView {
        ClientView { token: self.token@, profile_id: self.profile_id@ }
    }
}

impl Client {
    pub fn new(token: &str, profile_id: &str) -> (r: Client)
        ensures
            r@ == (ClientView { token: token@, profile_id: profile_id@ }),
    {
        Client { token: String::from_str(token), profile_id: String::from_str(profile_id) }
    }

    /// The GET request for `method` with these credentials and `query`.
    pub fn request(&self, method: &str, query: Vec<(String, String)>) -> (r: ApiRequest)
        ensures
            r.url@ == BASE_URL@ + method@,
            pairs_view(r.headers) == request_headers(self@),
            r.query@ == query@,
    {
        let url = String::from_str(BASE_URL).concat(method);
        let mut headers: Vec<(String, String)> = Vec::new();
        headers.push((String::from_str("Auth-Token"), self.token.clone()));
        headers.push((String::from_str("Content-Type"), String::from_str("application/json")));
        headers.push((String::from_str("Profile-Id"), self.profile_id.clone()));
        headers.push((String::from_str("User-Agent"), String::from_str(USER_AGENT)));
        headers.push((String::from_str("Accept"), String::from_str("*/*")));
        assert(pairs_view(headers) =~= request_headers(self@));
        ApiRequest { url, headers, query }
    }

    /// The request for the homework from `from` to `to`; a missing bound is `today`.
    pub fn homework_request(&self, from: Option<Day>, to: Option<Day>, today: Day) -> (r: ApiRequest)
        requires
            today.wf(),
            bound_wf(from),
            bound_wf(to),
        ensures
            r.url@ == BASE_URL@ + HOMEWORK_PATH@,
            pairs_view(r.headers) == request_headers(self@),
            pairs_view(r.query) == seq![
                ("begin_prepared_date"@, query_texts(from, to, today).0),
                ("end_prepared_date"@, query_texts(from, to, today).1),
            ],
    {
        let q = homework_query(from, to, today);
        self.request(HOMEWORK_PATH, q.to_pairs())
    }

    /// The request for the homework of the one day `at`.
    pub fn homework_request_at(&self, at: Day) -> (r: ApiRequest)
        requires
            at.wf(),
        ensures
            r.url@ == BASE_URL@ + HOMEWORK_PATH@,
            pairs_view(r.headers) == request_headers(self@),
            pairs_view(r.query) == seq![
                ("begin_prepared_date"@, day_text(at)),
                ("end_prepared_date"@, day_text(at)),
            ],
    {
        self.homework_request(Some(at), Some(at), at)
    }
}

} // verus!
