//! What an HTTP exchange hands back. The exchange itself is the caller's
//! work; the pipeline and the vulnerability matcher only read its outcome.
use vstd::prelude::*;
use vstd::hash_map::StringHashMap;

verus! {

/// The outcome of one HTTP exchange: status code, body, headers by name, and
/// the address that answered.
pub struct Response {
    pub status: u16,
    pub body: String,
    pub headers: StringHashMap<String>,
    pub url: String,
}

/// A response as contracts see it.
pub struct ResponseModel {
    pub status: u16,
    pub body: Seq<char>,
    pub headers: Map<Seq<char>, Seq<char>>,
    pub url: Seq<char>,
}

impl View for Response {
    type V = ResponseModel;

    open spec fn view(&self) -> ResponseModel {
        ResponseModel {
            status: self.status,
            body: self.body@,
            headers: self.headers@.map_values(|v: String| v@),
            url: self.url@,
        }
    }
}

impl DeepView for Response {
    type V = ResponseModel;

    open spec fn deep_view(&self) -> ResponseModel {
        self@
    }
}

impl Response {
    /// A response with the given status, body and address, and no headers.
    pub fn new(status: u16, body: String, url: String) -> (r: Response)
        ensures
            r@ == (ResponseModel {
                status,
                body: body@,
                headers: Map::<Seq<char>, Seq<char>>::empty(),
                url: url@,
            }),
    {
        let r = Response { status, body, headers: StringHashMap::new(), url };
        assert(r@.headers =~= Map::<Seq<char>, Seq<char>>::empty());
        r
    }

    /// Sets the header `name` to `value`, in place of an earlier value.
    pub fn set_header(&mut self, name: String, value: String)
        ensures
            final(self)@ == (ResponseModel {
                headers: old(self)@.headers.insert(name@, value@),
                ..old(self)@
            }),
    {
        self.headers.insert(name, value);
        assert(self@.headers =~= old(self)@.headers.insert(name@, value@));
    }
}

} // verus!
