use vstd::prelude::*;
use crate::event_store::metadata_view;

verus! {

/// True if `chrono` has a date for the moment `seconds` seconds and
/// `nanoseconds` nanoseconds after the start of 1970 (UTC): the moment lies
/// between the start of the year -262143 and the end of the year 262142, and
/// the nanoseconds are below a second, or below two seconds in the last
/// second of a minute, where they stand for a leap second.
pub open spec fn has_date(seconds: int, nanoseconds: int) -> bool {
    &&& -8_334_601_228_800 <= seconds <= 8_210_266_876_799
    &&& 0 <= nanoseconds
    &&& nanoseconds < 1_000_000_000 || (nanoseconds < 2_000_000_000 && seconds % 60 == 59)
}

/// The text that `chrono` writes for the moment `seconds` seconds and
/// `nanoseconds` nanoseconds after the start of 1970 (UTC), in the format of
/// RFC 3339. It means something only for a moment that has a date.
pub uninterp spec fn rfc3339_text(seconds: int, nanoseconds: int) -> Seq<char>;

/// Turns the two numbers into a date with `chrono::DateTime::from_timestamp`
/// and, where there is one, writes it with `DateTime::to_rfc3339`. The
/// contract claims that there is a date exactly for the moments of
/// `has_date`, as the range checks in `from_timestamp` and in the date and
/// time constructors that it calls have it, and that the text depends on
/// nothing but the two numbers.
#[verifier::external_body]
fn format_rfc3339(seconds: i64, nanoseconds: u32) -> (text: Option<String>)
    ensures
        text is Some <==> has_date(seconds as int, nanoseconds as int),
        text matches Some(written) ==> written@ == rfc3339_text(
            seconds as int,
            nanoseconds as int,
        ),
{
    match chrono::DateTime::from_timestamp(seconds, nanoseconds) {
        Some(moment) => Some(moment.to_rfc3339()),
        None => None,
    }
}

/// True if no key occurs twice in `metadata`.
pub open spec fn has_distinct_keys(metadata: Seq<(Seq<char>, Seq<char>)>) -> bool {
    forall|first: int, second: int|
        0 <= first < second < metadata.len() ==> (#[trigger] metadata[first]).0 != (
        #[trigger] metadata[second]).0
}

/// The keys under which a request is noted differ from one another.
pub proof fn lemma_request_keys_differ()
    ensures
        "time"@ != "uri"@,
        "time"@ != "User-Agent"@,
        "uri"@ != "User-Agent"@,
        "time"@ != "path"@,
{
    reveal_strlit("time");
    reveal_strlit("uri");
    reveal_strlit("User-Agent");
    reveal_strlit("path");
    assert("time"@.len() == 4 && "uri"@.len() == 3 && "User-Agent"@.len() == 10);
    assert("time"@[0] == 't' && "path"@[0] == 'p');
}

/// The metadata that goes with a command: what is known of the request that
/// brought it, as keys and values in the order in which they were noted.
#[derive(Debug, PartialEq)]
pub struct MetadataExtension(pub Vec<(String, String)>);

impl View for MetadataExtension {
    type V = Seq<(Seq<char>, Seq<char>)>;

    open spec fn view(&self) -> Seq<(Seq<char>, Seq<char>)> {
        metadata_view(self.0@)
    }
}

/// The metadata of a whole request: when it came, the URI it called and,
/// where the request names one, its user agent.
pub open spec fn request_metadata(
    time: Seq<char>,
    uri: Seq<char>,
    user_agent: Option<Seq<char>>,
) -> Seq<(Seq<char>, Seq<char>)> {
    match user_agent {
        Some(agent) => seq![("time"@, time), ("uri"@, uri), ("User-Agent"@, agent)],
        None => seq![("time"@, time), ("uri"@, uri)],
    }
}

/// The metadata of the head of a request: when it came and the path it
/// called.
pub open spec fn request_parts_metadata(time: Seq<char>, path: Seq<char>) -> Seq<
    (Seq<char>, Seq<char>),
> {
    seq![("time"@, time), ("path"@, path)]
}

impl MetadataExtension {
    /// The metadata of a request that came at `time` for `uri`.
    pub fn for_request(time: String, uri: &str, user_agent: Option<&str>) -> (metadata: Self)
        ensures
            metadata@ == request_metadata(
                time@,
                uri@,
                match user_agent {
                    Some(agent) => Some(agent@),
                    None => None,
                },
            ),
            has_distinct_keys(metadata@),
    {
        proof {
            lemma_request_keys_differ();
        }
        let mut entries: Vec<(String, String)> = Vec::new();
        entries.push(("time".to_owned(), time));
        entries.push(("uri".to_owned(), uri.to_owned()));
        match user_agent {
            Some(agent) => {
                entries.push(("User-Agent".to_owned(), agent.to_owned()));
                assert(metadata_view(entries@) =~= seq![
                    ("time"@, time@),
                    ("uri"@, uri@),
                    ("User-Agent"@, agent@),
                ]);
            },
            None => {
                assert(metadata_view(entries@) =~= seq![("time"@, time@), ("uri"@, uri@)]);
            },
        }
        MetadataExtension(entries)
    }

    /// The metadata of a request head that came at `time` for `path`.
    pub fn for_request_parts(time: String, path: &str) -> (metadata: Self)
        ensures
            metadata@ == request_parts_metadata(time@, path@),
            has_distinct_keys(metadata@),
    {
        proof {
            lemma_request_keys_differ();
        }
        let mut entries: Vec<(String, String)> = Vec::new();
        entries.push(("time".to_owned(), time));
        entries.push(("path".to_owned(), path.to_owned()));
        assert(metadata_view(entries@) =~= seq![("time"@, time@), ("path"@, path@)]);
        MetadataExtension(entries)
    }

    /// The metadata of a request for `uri` that came `seconds` seconds and
    /// `nanoseconds` nanoseconds after the start of 1970 (UTC); `None`
    /// exactly where there is no date for these numbers.
    pub fn from_request(
        seconds: i64,
        nanoseconds: u32,
        uri: &str,
        user_agent: Option<&str>,
    ) -> (metadata: Option<Self>)
        ensures
            metadata is Some <==> has_date(seconds as int, nanoseconds as int),
            metadata matches Some(noted) ==> {
                &&& noted@ == request_metadata(
                    rfc3339_text(seconds as int, nanoseconds as int),
                    uri@,
                    match user_agent {
                        Some(agent) => Some(agent@),
                        None => None,
                    },
                )
                &&& has_distinct_keys(noted@)
            },
    {
        match format_rfc3339(seconds, nanoseconds) {
            Some(time) => Some(Self::for_request(time, uri, user_agent)),
            None => None,
        }
    }

    /// The metadata of a request head for `path` that came `seconds` seconds
    /// and `nanoseconds` nanoseconds after the start of 1970 (UTC); `None`
    /// exactly where there is no date for these numbers.
    pub fn from_request_parts(seconds: i64, nanoseconds: u32, path: &str) -> (metadata: Option<
        Self,
    >)
        ensures
            metadata is Some <==> has_date(seconds as int, nanoseconds as int),
            metadata matches Some(noted) ==> {
                &&& noted@ == request_parts_metadata(
                    rfc3339_text(seconds as int, nanoseconds as int),
                    path@,
                )
                &&& has_distinct_keys(noted@)
            },
    {
        match format_rfc3339(seconds, nanoseconds) {
            Some(time) => Some(Self::for_request_parts(time, path)),
            None => None,
        }
    }
}

} // verus!
