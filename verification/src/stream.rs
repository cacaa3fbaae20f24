//! Live channels: from the answer of the token service to the address of the
//! master playlist, and from the playlist to the variants it offers.

use vstd::prelude::*;
use vstd::string::StringExecFns;
use crate::error::{viewed, Error};
use crate::http::{
    answer_of, answered_body, json_answer_of, json_body, Method, Reply, Request, RequestView,
};
use crate::json::{json_node, node_at, Node, NodeView};
use crate::pattern::{capture_groups, group, group_text, groups_view, regex_groups};
use crate::text::{
    beginning_occurs, chars_of, contains, lines_of, occurs_in, rows, split_lines, starts_with,
    string_of,
};

verus! {

/// The signed credential that admits to the playlist of one channel for a
/// short while. Nothing is read into either part.
#[derive(Debug)]
pub struct StreamPlaybackAccessToken {
    value: String,
    signature: String,
}

/// [`StreamPlaybackAccessToken`] over sequences of characters.
pub ghost struct TokenView {
    pub value: Seq<char>,
    pub signature: Seq<char>,
}

impl View for StreamPlaybackAccessToken {
    type V = TokenView;

    closed spec fn view(&self) -> TokenView {
        TokenView { value: self.value@, signature: self.signature@ }
    }
}

impl StreamPlaybackAccessToken {
    /// A token of these two parts.
    pub fn new(value: String, signature: String) -> (r: StreamPlaybackAccessToken)
        ensures
            r@ == (TokenView { value: value@, signature: signature@ }),
    {
        StreamPlaybackAccessToken { value, signature }
    }

    /// The token itself.
    pub fn value(&self) -> (r: &str)
        ensures
            r@ == self@.value,
    {
        self.value.as_str()
    }

    /// The signature that vouches for the token.
    pub fn signature(&self) -> (r: &str)
        ensures
            r@ == self@.signature,
    {
        self.signature.as_str()
    }
}

/// The token made of the two values found in the answer of the token
/// service: both must be strings.
pub open spec fn token_of_nodes(value: NodeView, signature: NodeView) -> Result<TokenView, Error> {
    match (value, signature) {
        (NodeView::Text(value), NodeView::Text(signature)) => Ok(TokenView { value, signature }),
        _ => Err(Error::ResponseShape),
    }
}

/// The token that an answer of the token service holds.
pub open spec fn decoded_token(doc: Seq<char>) -> Result<TokenView, Error> {
    token_of_nodes(
        json_node(doc, "/data/streamPlaybackAccessToken/value"@),
        json_node(doc, "/data/streamPlaybackAccessToken/signature"@),
    )
}

/// Builds the token from the two values found in the answer of the token
/// service.
pub fn token_from_nodes(value: Node, signature: Node) -> (r: Result<
    StreamPlaybackAccessToken,
    Error,
>)
    ensures
        viewed(r) == token_of_nodes(value@, signature@),
{
    match (value, signature) {
        (Node::Text(value), Node::Text(signature)) => Ok(
            StreamPlaybackAccessToken::new(value, signature),
        ),
        _ => Err(Error::ResponseShape),
    }
}

/// Decodes the answer of the token service.
pub fn get_stream_token(stream_info: String) -> (r: Result<StreamPlaybackAccessToken, Error>)
    ensures
        viewed(r) == decoded_token(stream_info@),
{
    token_from_nodes(
        node_at(stream_info.as_str(), "/data/streamPlaybackAccessToken/value"),
        node_at(stream_info.as_str(), "/data/streamPlaybackAccessToken/signature"),
    )
}

/// The address of the master playlist of `channel`, for one who holds
/// `token`.
pub open spec fn playlist_url_of(channel: Seq<char>, token: TokenView) -> Seq<char> {
    "https://usher.ttvnw.net/api/channel/hls/"@ + channel + ".m3u8?sig="@ + token.signature
        + "&token="@ + token.value + "&allow_source=true&allow_audio_only=true"@
}

/// Composes the address of the master playlist of `channel`.
pub fn playlist_url(channel: &str, token: &StreamPlaybackAccessToken) -> (r: String)
    ensures
        r@ == playlist_url_of(channel@, token@),
{
    let mut r = String::from_str("https://usher.ttvnw.net/api/channel/hls/");
    r.append(channel);
    r.append(".m3u8?sig=");
    r.append(token.signature());
    r.append("&token=");
    r.append(token.value());
    r.append("&allow_source=true&allow_audio_only=true");
    r
}

/// The pattern that finds the label of a variant in its line.
pub const NAME_PATTERN: &'static str = r#"NAME="(.+?)""#;

/// What a line of a master playlist is to the parser.
#[derive(Debug, Clone, Copy, PartialEq, Eq, Structural)]
pub enum LineKind {
    /// The address of a variant: the line begins with `https`.
    Media,
    /// The description of the variant that follows: the line is not the
    /// `#EXTM3U` marker and holds a `GROUP-ID` attribute.
    Label,
    /// Anything else; it is passed over.
    Other,
}

/// The kind of a line. A line that begins with `https` is an address,
/// whatever else it holds.
pub open spec fn kind_of(line: Seq<char>) -> LineKind {
    if "https"@.is_prefix_of(line) {
        LineKind::Media
    } else if !"#EXTM3U"@.is_prefix_of(line) && occurs_in(line, "GROUP-ID"@) {
        LineKind::Label
    } else {
        LineKind::Other
    }
}

/// Tells the kind of a line.
pub fn line_kind(line: &Vec<char>) -> (r: LineKind)
    ensures
        r == kind_of(line@),
{
    if starts_with(line, "https") {
        LineKind::Media
    } else if !starts_with(line, "#EXTM3U") && contains(line, "GROUP-ID") {
        LineKind::Label
    } else {
        LineKind::Other
    }
}

/// The attribute that gives a variant the label `label`.
pub open spec fn attribute_of(label: Seq<char>) -> Seq<char> {
    "NAME=\""@ + label + "\""@
}

/// The label that a search of `line` for the `NAME` attribute gave: its
/// first group, which must not be empty and must stand in the line as the
/// value of that attribute.
pub open spec fn label_of_groups(line: Seq<char>, groups: Option<Seq<Option<Seq<char>>>>) -> Result<
    Seq<char>,
    Error,
> {
    match group_text(groups, 1) {
        Some(label) if label.len() > 0 && occurs_in(line, attribute_of(label)) => Ok(label),
        _ => Err(Error::ResponseShape),
    }
}

/// The label that a line gives to the variant that follows it.
pub open spec fn label_of(line: Seq<char>) -> Result<Seq<char>, Error> {
    label_of_groups(line, regex_groups(NAME_PATTERN@, line))
}

/// Reads the label out of the groups that a search of `line` gave, and holds
/// it against the line. A line in which no `NAME` attribute was found has no
/// label, and that is a failure.
pub fn label_from_groups(line: &Vec<char>, groups: &Option<Vec<Option<String>>>) -> (r: Result<
    String,
    Error,
>)
    ensures
        viewed(r) == label_of_groups(line@, groups_view(*groups)),
        r matches Ok(label) ==> label@.len() > 0 && occurs_in(line@, attribute_of(label@)),
{
    match group(groups, 1) {
        Some(label) => {
            let mut attribute = String::from_str("NAME=\"");
            attribute.append(label.as_str());
            attribute.append("\"");
            if chars_of(label.as_str()).len() > 0 && contains(line, attribute.as_str()) {
                Ok(label)
            } else {
                Err(Error::ResponseShape)
            }
        },
        None => Err(Error::ResponseShape),
    }
}

/// A line without the beginning of a `NAME` attribute has no label, whatever
/// a search of it gave.
pub proof fn no_name_no_label(line: Seq<char>, groups: Option<Seq<Option<Seq<char>>>>)
    requires
        !occurs_in(line, "NAME=\""@),
    ensures
        label_of_groups(line, groups) == Err::<Seq<char>, Error>(Error::ResponseShape),
{
    if let Some(label) = group_text(groups, 1) {
        if occurs_in(line, attribute_of(label)) {
            assert(attribute_of(label) =~= "NAME=\""@ + (label + "\""@));
            beginning_occurs(line, "NAME=\""@, label + "\""@);
        }
    }
}

/// Where the parser stands between two lines: the label waiting for its
/// address, empty where none waits, and the variants found so far, each a
/// label and an address.
pub ghost struct ScanView {
    pub label: Seq<char>,
    pub variants: Seq<(Seq<char>, Seq<char>)>,
}

/// What one line does to the state. An address takes the waiting label and
/// leaves none; a description replaces the waiting label, and fails where it
/// names none; any other line changes nothing.
pub open spec fn step(scan: ScanView, line: Seq<char>) -> Result<ScanView, Error> {
    match kind_of(line) {
        LineKind::Media => Ok(
            ScanView { label: Seq::empty(), variants: scan.variants.push((scan.label, line)) },
        ),
        LineKind::Label => match label_of(line) {
            Ok(label) => Ok(ScanView { label, variants: scan.variants }),
            Err(e) => Err(e),
        },
        LineKind::Other => Ok(scan),
    }
}

/// The state after all of `lines`, taken from the first on; the first
/// failure is the result.
pub open spec fn scanned(lines: Seq<Seq<char>>) -> Result<ScanView, Error>
    decreases lines.len(),
{
    if lines.len() == 0 {
        Ok(ScanView { label: Seq::empty(), variants: Seq::empty() })
    } else {
        match scanned(lines.drop_last()) {
            Ok(scan) => step(scan, lines.last()),
            Err(e) => Err(e),
        }
    }
}

/// The variants that a master playlist offers, in the order of its lines.
pub open spec fn variants_of(body: Seq<char>) -> Result<Seq<(Seq<char>, Seq<char>)>, Error> {
    match scanned(lines_of(body)) {
        Ok(scan) => Ok(scan.variants),
        Err(e) => Err(e),
    }
}

/// A list of variants as a sequence of pairs of sequences of characters.
pub open spec fn pairs(list: Seq<(String, String)>) -> Seq<(Seq<char>, Seq<char>)> {
    Seq::new(list.len(), |i: int| (list[i].0@, list[i].1@))
}

/// A failure among the first `n` lines is the result for all of them.
pub proof fn failure_is_final(lines: Seq<Seq<char>>, n: int)
    requires
        0 <= n <= lines.len(),
        scanned(lines.take(n)) is Err,
    ensures
        scanned(lines) == scanned(lines.take(n)),
    decreases lines.len(),
{
    if n == lines.len() {
        assert(lines.take(n) == lines);
    } else {
        assert(lines.drop_last().take(n) == lines.take(n));
        failure_is_final(lines.drop_last(), n);
    }
}

/// A description without a label is never passed over: wherever it stands,
/// the playlist as a whole is refused.
pub proof fn unlabelled_variant_is_fatal(lines: Seq<Seq<char>>, index: int)
    requires
        0 <= index < lines.len(),
        kind_of(lines[index]) == LineKind::Label,
        label_of(lines[index]) is Err,
    ensures
        scanned(lines) == Err::<ScanView, Error>(Error::ResponseShape),
{
    let upto = lines.take(index + 1);
    assert(upto.last() == lines[index]);
    assert(scanned(upto) == Err::<ScanView, Error>(Error::ResponseShape)) by {
        if scanned(upto.drop_last()) is Err {
            every_failure_is_of_shape(upto.drop_last());
        }
    }
    failure_is_final(lines, index + 1);
}

/// A line that holds a `GROUP-ID` attribute and is not the `#EXTM3U` marker
/// nor an address must hold a `NAME` attribute: a playlist with such a line
/// that lacks one is refused as a whole, and no variant of it is given.
pub proof fn missing_name_is_fatal(body: Seq<char>, index: int)
    requires
        0 <= index < lines_of(body).len(),
        kind_of(lines_of(body)[index]) == LineKind::Label,
        !occurs_in(lines_of(body)[index], "NAME=\""@),
    ensures
        variants_of(body) == Err::<Seq<(Seq<char>, Seq<char>)>, Error>(Error::ResponseShape),
{
    let line = lines_of(body)[index];
    no_name_no_label(line, regex_groups(NAME_PATTERN@, line));
    unlabelled_variant_is_fatal(lines_of(body), index);
}

/// The parser fails in one way only.
pub proof fn every_failure_is_of_shape(lines: Seq<Seq<char>>)
    ensures
        scanned(lines) is Err ==> scanned(lines) == Err::<ScanView, Error>(Error::ResponseShape),
    decreases lines.len(),
{
    if lines.len() > 0 {
        every_failure_is_of_shape(lines.drop_last());
    }
}

/// Parses a master playlist into its variants, each a label and an address,
/// in the order of the lines. An address that no description precedes has
/// the empty label.
pub fn parse_master_playlist(body: &str) -> (r: Result<Vec<(String, String)>, Error>)
    ensures
        match r {
            Ok(variants) => variants_of(body@) == Ok::<Seq<(Seq<char>, Seq<char>)>, Error>(
                pairs(variants@),
            ),
            Err(e) => variants_of(body@) == Err::<Seq<(Seq<char>, Seq<char>)>, Error>(e),
        },
{
    let lines = split_lines(body);
    let mut label = String::new();
    let mut variants: Vec<(String, String)> = Vec::new();
    let mut i: usize = 0;
    proof {
        assert(rows(lines@).take(0).len() == 0);
        assert(pairs(variants@) =~= Seq::empty());
    }
    while i < lines.len()
        invariant
            i <= lines@.len(),
            rows(lines@) == lines_of(body@),
            scanned(rows(lines@).take(i as int)) == Ok::<ScanView, Error>(
                ScanView { label: label@, variants: pairs(variants@) },
            ),
        decreases lines@.len() - i,
    {
        let ghost before = ScanView { label: label@, variants: pairs(variants@) };
        proof {
            assert(rows(lines@).take(i + 1).drop_last() == rows(lines@).take(i as int));
            assert(rows(lines@).take(i + 1).last() == lines@[i as int]@);
        }
        let line = &lines[i];
        match line_kind(line) {
            LineKind::Media => {
                let url = string_of(line);
                variants.push((label, url));
                label = String::new();
                assert(pairs(variants@) =~= before.variants.push((before.label, line@)));
            },
            LineKind::Label => {
                let text = string_of(line);
                let groups = capture_groups(NAME_PATTERN, text.as_str());
                match label_from_groups(line, &groups) {
                    Ok(found) => {
                        label = found;
                    },
                    Err(e) => {
                        proof {
                            failure_is_final(rows(lines@), i + 1);
                        }
                        return Err(e);
                    },
                }
            },
            LineKind::Other => {},
        }
        i += 1;
    }
    proof {
        assert(rows(lines@).take(i as int) == rows(lines@));
    }
    Ok(variants)
}

/// The client id under which the token service is asked. It is the player's
/// own, not the caller's: the caller's credentials are of no use there.
pub const PLAYBACK_CLIENT_ID: &'static str = "kimne78kx3ncx6brgo4mv6wki5h1ko";

/// The body of the question to the token service, up to the channel's name.
pub const TOKEN_QUERY_HEAD: &'static str =
    r#"{"operationName": "PlaybackAccessToken","variables": {"isLive": true,"login": ""#;

/// The body of the question to the token service, from the channel's name
/// on. It names the stored query by its hash.
pub const TOKEN_QUERY_TAIL: &'static str =
    r#"","isVod": false,"vodID": "","playerType": "channel_home_live"},"extensions": {"persistedQuery": {"version": 1,"sha256Hash": "0828119ded1c13477966434e15800ff57ddacf13ba1911c129dc2200705b0712"}}}"#;

/// The request that asks the token service for the token of one channel.
pub open spec fn stream_info_request_of(channel: Seq<char>) -> RequestView {
    RequestView {
        method: Method::Post,
        url: "https://gql.twitch.tv/gql"@,
        headers: seq![
            ("Content-Type"@, "Content-Type: text/plain"@),
            ("Client-Id"@, PLAYBACK_CLIENT_ID@),
        ],
        body: TOKEN_QUERY_HEAD@ + channel + TOKEN_QUERY_TAIL@,
    }
}

/// Composes the request for the playback token of `channel`. The name is
/// set into the body as it is.
pub fn stream_info_request(channel: &str) -> (r: Request)
    ensures
        r@ == stream_info_request_of(channel@),
{
    let mut body = String::from_str(TOKEN_QUERY_HEAD);
    body.append(channel);
    body.append(TOKEN_QUERY_TAIL);
    let mut headers: Vec<(String, String)> = Vec::new();
    headers.push((String::from_str("Content-Type"), String::from_str("Content-Type: text/plain")));
    headers.push((String::from_str("Client-Id"), String::from_str(PLAYBACK_CLIENT_ID)));
    let r = Request { method: Method::Post, url: String::from_str("https://gql.twitch.tv/gql"), headers, body };
    assert(r@.headers =~= stream_info_request_of(channel@).headers);
    r
}

/// The request that fetches the master playlist of `channel`.
pub open spec fn playlist_request_of(channel: Seq<char>, token: TokenView) -> RequestView {
    RequestView {
        method: Method::Get,
        url: playlist_url_of(channel, token),
        headers: Seq::empty(),
        body: Seq::empty(),
    }
}

/// The request for the master playlist, after the token service has replied.
pub open spec fn playlist_request_after(channel: Seq<char>, reply: Reply) -> Result<
    RequestView,
    Error,
> {
    match json_answer_of(reply) {
        Ok(doc) => match decoded_token(doc) {
            Ok(token) => Ok(playlist_request_of(channel, token)),
            Err(e) => Err(e),
        },
        Err(e) => Err(e),
    }
}

/// Reads the reply of the token service and composes the request for the
/// master playlist of `channel`.
pub fn playlist_request_for(channel: &str, reply: Reply) -> (r: Result<Request, Error>)
    ensures
        viewed(r) == playlist_request_after(channel@, reply),
{
    let doc = match json_body(reply) {
        Ok(doc) => doc,
        Err(e) => { return Err(e); },
    };
    let token = match get_stream_token(doc) {
        Ok(token) => token,
        Err(e) => { return Err(e); },
    };
    let r = Request {
        method: Method::Get,
        url: playlist_url(channel, &token),
        headers: Vec::new(),
        body: String::new(),
    };
    assert(r@.headers =~= Seq::empty());
    Ok(r)
}

/// The variants that the reply to the playlist request offers.
pub open spec fn variants_after(reply: Reply) -> Result<Seq<(Seq<char>, Seq<char>)>, Error> {
    match answer_of(reply) {
        Ok(body) => variants_of(body),
        Err(e) => Err(e),
    }
}

/// Reads the reply to the playlist request and parses the playlist.
pub fn stream_variants(reply: Reply) -> (r: Result<Vec<(String, String)>, Error>)
    ensures
        match r {
            Ok(variants) => variants_after(reply) == Ok::<Seq<(Seq<char>, Seq<char>)>, Error>(
                pairs(variants@),
            ),
            Err(e) => variants_after(reply) == Err::<Seq<(Seq<char>, Seq<char>)>, Error>(e),
        },
{
    match answered_body(reply) {
        Ok(body) => parse_master_playlist(body.as_str()),
        Err(e) => Err(e),
    }
}

/// The addresses among `lines`, in their order.
pub open spec fn addresses_of(lines: Seq<Seq<char>>) -> Seq<Seq<char>>
    decreases lines.len(),
{
    if lines.len() == 0 {
        Seq::empty()
    } else if kind_of(lines.last()) == LineKind::Media {
        addresses_of(lines.drop_last()).push(lines.last())
    } else {
        addresses_of(lines.drop_last())
    }
}

/// A playlist that is taken gives one variant for each of its addresses, in
/// the order of the lines.
pub proof fn variants_follow_the_addresses(lines: Seq<Seq<char>>)
    ensures
        scanned(lines) matches Ok(scan) ==> {
            &&& scan.variants.len() == addresses_of(lines).len()
            &&& forall|k: int|
                0 <= k < scan.variants.len() ==> (#[trigger] scan.variants[k]).1 == addresses_of(
                    lines,
                )[k]
        },
    decreases lines.len(),
{
    if lines.len() > 0 {
        variants_follow_the_addresses(lines.drop_last());
    }
}

} // verus!
