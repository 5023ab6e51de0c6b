//! The JSON response envelope: a status code, a message and a payload.
use vstd::prelude::*;

verus! {

/// A response: `code` is the HTTP status, `info` a message for the client.
#[derive(Clone, Debug)]
pub struct Res<T> {
    pub info: String,
    pub code: u16,
    pub data: T,
}

/// The status sent for a code: the code itself when it is a valid HTTP
/// status (three digits), else 400.
pub open spec fn status_of(code: u16) -> u16 {
    if 100 <= code <= 999 {
        code
    } else {
        400
    }
}

/// The kinds of failure that turn into a response.
#[derive(Clone, Copy, Debug, PartialEq, Eq, Structural)]
pub enum Failure {
    Io,
    Token,
    Parse,
}

/// The status of a failure kind.
pub open spec fn failure_code(f: Failure) -> u16 {
    match f {
        Failure::Io => 400,
        Failure::Token => 401,
        Failure::Parse => 415,
    }
}

/// The text that precedes a failure's own description.
pub open spec fn failure_prefix(f: Failure) -> Seq<char> {
    match f {
        Failure::Io => "IoError: "@,
        Failure::Token => "身份认证失败: "@,
        Failure::Parse => "数据解析失败: "@,
    }
}

/// The codes of one field, separated by `, `.
pub open spec fn joined(codes: Seq<Seq<char>>) -> Seq<char>
    decreases codes.len(),
{
    if codes.len() == 0 {
        Seq::empty()
    } else if codes.len() == 1 {
        codes[0]
    } else {
        joined(codes.drop_last()) + ", "@ + codes.last()
    }
}

/// `field<code, code>; ` for each field in turn.
pub open spec fn field_entries(fields: Seq<(Seq<char>, Seq<Seq<char>>)>) -> Seq<char>
    decreases fields.len(),
{
    if fields.len() == 0 {
        Seq::empty()
    } else {
        field_entries(fields.drop_last()) + fields.last().0 + "<"@ + joined(fields.last().1)
            + ">; "@
    }
}

/// The message of a failed validation: the heading, then each field with
/// its failed rules, without the last space.
pub open spec fn validation_text(fields: Seq<(Seq<char>, Seq<Seq<char>>)>) -> Seq<char> {
    let all = "数据验证失败: "@ + field_entries(fields);
    all.subrange(0, all.len() - 1)
}

/// The view of a field and its failed rules.
pub open spec fn field_view(f: (String, Vec<String>)) -> (Seq<char>, Seq<Seq<char>>) {
    (f.0@, f.1@.map_values(|c: String| c@))
}

impl<T> Res<T> {
    /// A response with the given status, message and payload.
    pub fn new(code: u16, info: String, data: T) -> (r: Res<T>)
        ensures
            r.code == code,
            r.info == info,
            r.data == data,
    {
        Res { code, info, data }
    }

    /// The status to send.
    pub fn status(&self) -> (r: u16)
        ensures
            r == status_of(self.code),
    {
        if 100 <= self.code && self.code <= 999 {
            self.code
        } else {
            400
        }
    }

    /// Whether the response reports an error, whose message is then kept
    /// for the request log.
    pub fn is_error(&self) -> (r: bool)
        ensures
            r == (self.code >= 400),
    {
        self.code >= 400
    }
}

impl Res<()> {
    /// The response for a failure of kind `kind`, described by `detail`.
    pub fn from_failure(kind: Failure, detail: &str) -> (r: Res<()>)
        ensures
            r.code == failure_code(kind),
            r.info@ == failure_prefix(kind) + detail@,
    {
        let (code, prefix): (u16, &str) = match kind {
            Failure::Io => (400, "IoError: "),
            Failure::Token => (401, "身份认证失败: "),
            Failure::Parse => (415, "数据解析失败: "),
        };
        let mut info = String::from_str(prefix);
        info.append(detail);
        Res { code, info, data: () }
    }

    /// The 401 response for a request without a usable token.
    pub fn missing_token() -> (r: Res<()>)
        ensures
            r.code == 401,
            r.info@ == "身份认证失败: 请求未携带有效token"@,
    {
        Res { code: 401, info: String::from_str("身份认证失败: 请求未携带有效token"), data: () }
    }

    /// The 422 response for a failed validation, given each failing field
    /// with the rules it broke.
    pub fn validation_failure(fields: &Vec<(String, Vec<String>)>) -> (r: Res<()>)
        ensures
            r.code == 422,
            r.info@ == validation_text(fields@.map_values(|f: (String, Vec<String>)| field_view(f))),
    {
        let ghost views = fields@.map_values(|f: (String, Vec<String>)| field_view(f));
        let mut s = String::from_str("数据验证失败: ");
        let mut i: usize = 0;
        while i < fields.len()
            invariant
                views == fields@.map_values(|f: (String, Vec<String>)| field_view(f)),
                i <= fields@.len(),
                s@ == "数据验证失败: "@ + field_entries(views.subrange(0, i as int)),
            decreases fields@.len() - i,
        {
            let (key, codes) = &fields[i];
            s.append(key.as_str());
            s.append("<");
            let ghost before = s@;
            let ghost cs = views[i as int].1;
            let mut j: usize = 0;
            while j < codes.len()
                invariant
                    cs == codes@.map_values(|c: String| c@),
                    j <= codes@.len(),
                    s@ == before + joined(cs.subrange(0, j as int)),
                decreases codes@.len() - j,
            {
                if j > 0 {
                    s.append(", ");
                }
                s.append(codes[j].as_str());
                proof {
                    let sub = cs.subrange(0, (j + 1) as int);
                    assert(sub.drop_last() =~= cs.subrange(0, j as int));
                    if j == 0 {
                        assert(cs.subrange(0, j as int) =~= Seq::<Seq<char>>::empty());
                    }
                }
                j = j + 1;
            }
            assert(cs.subrange(0, codes@.len() as int) =~= cs);
            s.append(">; ");
            proof {
                let sub = views.subrange(0, (i + 1) as int);
                assert(sub.drop_last() =~= views.subrange(0, i as int));
            }
            i = i + 1;
        }
        assert(views.subrange(0, fields@.len() as int) =~= views);
        proof {
            reveal_strlit("数据验证失败: ");
        }
        let n = s.as_str().unicode_len();
        let info = String::from_str(s.as_str().substring_char(0, n - 1));
        Res { code: 422, info, data: () }
    }
}

} // verus!
