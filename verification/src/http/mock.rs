//! Canned responses for tests: each path answers with the first response mocked for it.
use vstd::prelude::*;
use vstd::string::*;
use crate::text::str_eq;

verus! {

/// A canned response.
pub struct MockResponse {
    pub status: u16,
    pub body: String,
    /// Header names and values.
    pub headers: Vec<(String, String)>,
}

/// A JSON response with `status` and the serialized `body`.
pub fn json_response(status: u16, body: String) -> (r: MockResponse)
    ensures
        r.status == status,
        r.body == body,
        r.headers@.len() == 1,
        r.headers@[0].0@ == "content-type"@,
        r.headers@[0].1@ == "application/json"@,
{
    let mut headers: Vec<(String, String)> = Vec::new();
    headers.push((String::from_str("content-type"), String::from_str("application/json")));
    MockResponse { status, body, headers }
}

/// The response given for `path`: the first one mocked for it.
pub open spec fn first_for(mocks: Seq<(Seq<char>, MockResponse)>, path: Seq<char>) -> Option<MockResponse>
    decreases mocks.len(),
{
    if mocks.len() == 0 {
        None
    } else if mocks[0].0 == path {
        Some(mocks[0].1)
    } else {
        first_for(mocks.drop_first(), path)
    }
}

/// Responses mocked per path, in the order they were mocked.
pub struct MockHttp {
    responses: Vec<(String, MockResponse)>,
}

impl View for MockHttp {
    type V = Seq<(Seq<char>, MockResponse)>;

    closed spec fn view(&self) -> Seq<(Seq<char>, MockResponse)> {
        self.responses@.map_values(|e: (String, MockResponse)| (e.0@, e.1))
    }
}

impl MockHttp {
    /// No responses.
    pub fn new() -> (m: Self)
        ensures
            m@ == Seq::<(Seq<char>, MockResponse)>::empty(),
    {
        let m = MockHttp { responses: Vec::new() };
        assert(m@ =~= Seq::<(Seq<char>, MockResponse)>::empty());
        m
    }

    /// Adds `response` for `path`, after those already mocked for it.
    pub fn mock_response(&mut self, path: &str, response: MockResponse)
        ensures
            final(self)@ == old(self)@.push((path@, response)),
    {
        let ghost before = self@;
        self.responses.push((String::from_str(path), response));
        assert(self@ =~= before.push((path@, response)));
    }

    /// Adds a JSON response with `status` and the serialized `body` for `path`.
    pub fn mock_json(&mut self, path: &str, status: u16, body: String)
        ensures
            final(self)@.len() == old(self)@.len() + 1,
            final(self)@.drop_last() == old(self)@,
            final(self)@.last().0 == path@,
            final(self)@.last().1.status == status,
            final(self)@.last().1.body == body,
            final(self)@.last().1.headers@.len() == 1,
            final(self)@.last().1.headers@[0].0@ == "content-type"@,
            final(self)@.last().1.headers@[0].1@ == "application/json"@,
    {
        let r = json_response(status, body);
        self.mock_response(path, r);
        assert(self@.drop_last() =~= old(self)@);
    }

    /// The response for `path`; none when nothing was mocked for it (the client then
    /// fails with "no mock response").
    pub fn response_for(&self, path: &str) -> (r: Option<&MockResponse>)
        ensures
            match first_for(self@, path@) {
                Some(m) => r == Some(&m),
                None => r is None,
            },
    {
        let ghost all = self@;
        let mut i: usize = 0;
        assert(all.subrange(0, all.len() as int) =~= all);
        while i < self.responses.len()
            invariant
                i <= self.responses.len(),
                all == self@,
                all.len() == self.responses@.len(),
                first_for(all, path@) == first_for(all.subrange(i as int, all.len() as int), path@),
            decreases self.responses.len() - i,
        {
            let ghost rest = all.subrange(i as int, all.len() as int);
            assert(rest[0] == (self.responses@[i as int].0@, self.responses@[i as int].1));
            if str_eq(self.responses[i].0.as_str(), path) {
                return Some(&self.responses[i].1);
            }
            assert(rest.drop_first() =~= all.subrange(i + 1, all.len() as int));
            i = i + 1;
        }
        None
    }
}

/// Mocking another response for a path does not change what it answers once it has
/// a response; a path without one answers with the new response.
pub proof fn first_mock_wins(mocks: Seq<(Seq<char>, MockResponse)>, path: Seq<char>, response: MockResponse, asked: Seq<char>)
    ensures
        first_for(mocks.push((path, response)), asked) == (match first_for(mocks, asked) {
            Some(m) => Some(m),
            None => if asked == path { Some(response) } else { None },
        }),
    decreases mocks.len(),
{
    let pushed = mocks.push((path, response));
    if mocks.len() == 0 {
        assert(pushed[0] == (path, response));
        assert(pushed.drop_first() =~= Seq::<(Seq<char>, MockResponse)>::empty());
        assert(first_for(pushed.drop_first(), asked) is None);
    } else {
        assert(pushed[0] == mocks[0]);
        assert(pushed.drop_first() =~= mocks.drop_first().push((path, response)));
        first_mock_wins(mocks.drop_first(), path, response, asked);
    }
}

} // verus!
