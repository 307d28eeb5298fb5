use vstd::prelude::*;

verus! {

/// The envelope of every structured response body: a code, a message for the
/// reader and the data, each of them optional.
#[derive(Debug, Clone, PartialEq, Eq)]
pub struct ApiResult<T> {
    code: Option<u16>,
    msg: Option<String>,
    data: Option<T>,
}

/// Mathematical model of an [`ApiResult`].
pub struct ApiResultView<T> {
    pub code: Option<u16>,
    pub msg: Option<Seq<char>>,
    pub data: Option<T>,
}

impl<T> View for ApiResult<T> {
    type V = ApiResultView<T>;

    closed spec fn view(&self) -> ApiResultView<T> {
        ApiResultView {
            code: self.code,
            msg: match self.msg {
                Some(text) => Some(text@),
                None => None,
            },
            data: self.data,
        }
    }
}

impl<T> ApiResult<T> {
    /// An envelope with nothing in it.
    pub fn new() -> (fresh: Self)
        ensures
            fresh@ == (ApiResultView::<T> { code: None, msg: None, data: None }),
    {
        Self { code: None, msg: None, data: None }
    }

    /// An envelope that reports success.
    pub fn ok() -> (fresh: Self)
        ensures
            fresh@ == (ApiResultView::<T> { code: Some(200u16), msg: None, data: None }),
    {
        Self { code: Some(200u16), msg: None, data: None }
    }

    /// An envelope that reports failure.
    pub fn error() -> (fresh: Self)
        ensures
            fresh@ == (ApiResultView::<T> { code: Some(500u16), msg: None, data: None }),
    {
        Self { code: Some(500u16), msg: None, data: None }
    }

    /// The same envelope with its code replaced.
    pub fn code(self, code: u16) -> (next: Self)
        ensures
            next@ == (ApiResultView { code: Some(code), ..self@ }),
    {
        let mut next = self;
        next.code = Some(code);
        next
    }

    /// The same envelope with its message replaced.
    pub fn msg(self, msg: &str) -> (next: Self)
        ensures
            next@ == (ApiResultView { msg: Some(msg@), ..self@ }),
    {
        let mut next = self;
        next.msg = Some(String::from_str(msg));
        next
    }

    /// The same envelope with its data replaced.
    pub fn data(self, data: T) -> (next: Self)
        ensures
            next@ == (ApiResultView { data: Some(data), ..self@ }),
    {
        let mut next = self;
        next.data = Some(data);
        next
    }

    /// The code, if one was set.
    pub fn get_code(&self) -> (code: Option<u16>)
        ensures
            code == self@.code,
    {
        self.code
    }

    /// The message, if one was set.
    pub fn get_msg(&self) -> (msg: Option<&String>)
        ensures
            msg is Some == self@.msg is Some,
            msg matches Some(text) ==> self@.msg == Some(text@),
    {
        self.msg.as_ref()
    }

    /// The data, if any was set.
    pub fn get_data(&self) -> (data: Option<&T>)
        ensures
            data is Some == self@.data is Some,
            data matches Some(inner) ==> self@.data == Some(*inner),
    {
        self.data.as_ref()
    }
}

} // verus!
