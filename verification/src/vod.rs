//! Recordings: from the metadata of one recording to the links at which the
//! delivery hosts may serve it.

use vstd::prelude::*;
use vstd::string::StringExecFns;
use crate::error::{viewed, Error};
use crate::http::{json_answer_of, json_body, Method, Reply, Request, RequestView};
use crate::json::{json_node, node_at, Node, NodeView};
use crate::pattern::{capture_groups, group, group_text, groups_view, regex_groups};
use crate::probe::ProbeBoard;
use crate::secrets::{Secrets, SecretsView};
use crate::text::{chars_of, contains, is_key, is_key_text, occurs_in, texts};

verus! {

/// The record that the metadata service holds of one recording.
#[derive(Debug, Clone, PartialEq, Eq)]
pub struct VideoMetadata {
    pub id: String,
    pub thumbnail_url: String,
    pub title: String,
    pub url: String,
    pub user_id: String,
}

/// [`VideoMetadata`] over sequences of characters.
pub ghost struct VideoMetadataView {
    pub id: Seq<char>,
    pub thumbnail_url: Seq<char>,
    pub title: Seq<char>,
    pub url: Seq<char>,
    pub user_id: Seq<char>,
}

impl View for VideoMetadata {
    type V = VideoMetadataView;

    open spec fn view(&self) -> VideoMetadataView {
        VideoMetadataView {
            id: self.id@,
            thumbnail_url: self.thumbnail_url@,
            title: self.title@,
            url: self.url@,
            user_id: self.user_id@,
        }
    }
}

/// The record made of the values found in a metadata response: the `data`
/// array must hold exactly one element, and each field of that element must
/// be a string.
pub open spec fn video_of_nodes(
    data: NodeView,
    id: NodeView,
    thumbnail_url: NodeView,
    title: NodeView,
    url: NodeView,
    user_id: NodeView,
) -> Result<VideoMetadataView, Error> {
    match (data, id, thumbnail_url, title, url, user_id) {
        (
            NodeView::Array(n),
            NodeView::Text(id),
            NodeView::Text(thumbnail_url),
            NodeView::Text(title),
            NodeView::Text(url),
            NodeView::Text(user_id),
        ) if n == 1 => Ok(VideoMetadataView { id, thumbnail_url, title, url, user_id }),
        _ => Err(Error::ResponseShape),
    }
}

/// The record that a metadata response describes.
pub open spec fn decoded_video(doc: Seq<char>) -> Result<VideoMetadataView, Error> {
    video_of_nodes(
        json_node(doc, "/data"@),
        json_node(doc, "/data/0/id"@),
        json_node(doc, "/data/0/thumbnail_url"@),
        json_node(doc, "/data/0/title"@),
        json_node(doc, "/data/0/url"@),
        json_node(doc, "/data/0/user_id"@),
    )
}

/// Builds the record from the values found in a metadata response. Any
/// number of records but one is refused, never resolved by taking the first.
pub fn video_from_nodes(
    data: Node,
    id: Node,
    thumbnail_url: Node,
    title: Node,
    url: Node,
    user_id: Node,
) -> (r: Result<VideoMetadata, Error>)
    ensures
        viewed(r) == video_of_nodes(data@, id@, thumbnail_url@, title@, url@, user_id@),
        data@ != NodeView::Array(1) ==> r == Err::<VideoMetadata, Error>(Error::ResponseShape),
{
    match (data, id, thumbnail_url, title, url, user_id) {
        (
            Node::Array(n),
            Node::Text(id),
            Node::Text(thumbnail_url),
            Node::Text(title),
            Node::Text(url),
            Node::Text(user_id),
        ) => {
            if n == 1 {
                Ok(VideoMetadata { id, thumbnail_url, title, url, user_id })
            } else {
                Err(Error::ResponseShape)
            }
        },
        _ => Err(Error::ResponseShape),
    }
}

/// Decodes a metadata response, which must describe exactly one recording.
pub fn decode_video(vod_info: &str) -> (r: Result<VideoMetadata, Error>)
    ensures
        viewed(r) == decoded_video(vod_info@),
        json_node(vod_info@, "/data"@) != NodeView::Array(1) ==> r == Err::<VideoMetadata, Error>(
            Error::ResponseShape,
        ),
{
    video_from_nodes(
        node_at(vod_info, "/data"),
        node_at(vod_info, "/data/0/id"),
        node_at(vod_info, "/data/0/thumbnail_url"),
        node_at(vod_info, "/data/0/title"),
        node_at(vod_info, "/data/0/url"),
        node_at(vod_info, "/data/0/user_id"),
    )
}

/// The pattern that a thumbnail template is held against. Its two groups are
/// the storage id and the media key: runs of lower-case letters, digits and
/// underscores, each as long as it can be.
pub const THUMBNAIL_PATTERN: &'static str =
    r"https://static-cdn\.jtvnw\.net/cf_vods/([a-z0-9_]+)/([a-z0-9_]+)//?thumb/.+%\{width\}x%\{height\}\.jpe?g";

/// The two path segments of a thumbnail template that say where a recording
/// is stored.
#[derive(Debug, Clone, PartialEq, Eq)]
pub struct ThumbnailPath {
    pub storage_id: String,
    pub media_key: String,
}

/// [`ThumbnailPath`] over sequences of characters.
pub ghost struct ThumbnailPathView {
    pub storage_id: Seq<char>,
    pub media_key: Seq<char>,
}

impl View for ThumbnailPath {
    type V = ThumbnailPathView;

    open spec fn view(&self) -> ThumbnailPathView {
        ThumbnailPathView { storage_id: self.storage_id@, media_key: self.media_key@ }
    }
}

/// The part of a thumbnail template that holds the path: the address of the
/// directory of the recordings, then both segments, each closed by a slash.
pub open spec fn marker_of(path: ThumbnailPathView) -> Seq<char> {
    "https://static-cdn.jtvnw.net/cf_vods/"@ + path.storage_id + "/"@ + path.media_key + "/"@
}

/// Whether `path` is a path that `template` holds: both segments are runs of
/// lower-case letters, digits and underscores, and stand in the template one
/// after the other, each between two slashes. A slash is no such character,
/// so each segment is as long as it can be.
pub open spec fn fits(template: Seq<char>, path: ThumbnailPathView) -> bool {
    &&& is_key(path.storage_id)
    &&& is_key(path.media_key)
    &&& occurs_in(template, marker_of(path))
}

/// The path that the groups of a search of `template` give: the first group
/// is the storage id, the second the media key; both must be there, and be a
/// path that the template holds.
pub open spec fn path_of_groups(
    template: Seq<char>,
    groups: Option<Seq<Option<Seq<char>>>>,
) -> Result<ThumbnailPathView, Error> {
    match (group_text(groups, 1), group_text(groups, 2)) {
        (Some(storage_id), Some(media_key)) if fits(
            template,
            ThumbnailPathView { storage_id, media_key },
        ) => Ok(ThumbnailPathView { storage_id, media_key }),
        _ => Err(Error::ResponseShape),
    }
}

/// The path that a thumbnail template encodes.
pub open spec fn decoded_thumbnail(template: Seq<char>) -> Result<ThumbnailPathView, Error> {
    path_of_groups(template, regex_groups(THUMBNAIL_PATTERN@, template))
}

/// Reads the storage id and the media key out of the groups that a search of
/// `template` gave, and holds them against the template: what the search
/// found is taken only where it is a path that the template holds.
pub fn path_from_groups(template: &str, groups: &Option<Vec<Option<String>>>) -> (r: Result<
    ThumbnailPath,
    Error,
>)
    ensures
        viewed(r) == path_of_groups(template@, groups_view(*groups)),
        r matches Ok(path) ==> fits(template@, path@),
{
    match (group(groups, 1), group(groups, 2)) {
        (Some(storage_id), Some(media_key)) => {
            let mut marker = String::from_str("https://static-cdn.jtvnw.net/cf_vods/");
            marker.append(storage_id.as_str());
            marker.append("/");
            marker.append(media_key.as_str());
            marker.append("/");
            let path = ThumbnailPath { storage_id, media_key };
            if is_key_text(&chars_of(path.storage_id.as_str())) && is_key_text(
                &chars_of(path.media_key.as_str()),
            ) && contains(&chars_of(template), marker.as_str()) {
                Ok(path)
            } else {
                Err(Error::ResponseShape)
            }
        },
        _ => Err(Error::ResponseShape),
    }
}

/// Decodes a thumbnail template. A template that the pattern does not match
/// is refused; no other pattern is tried.
pub fn decode_thumbnail(template: &str) -> (r: Result<ThumbnailPath, Error>)
    ensures
        viewed(r) == decoded_thumbnail(template@),
        r matches Ok(path) ==> fits(template@, path@),
{
    let groups = capture_groups(THUMBNAIL_PATTERN, template);
    path_from_groups(template, &groups)
}

/// The delivery hosts known to have served recordings, in the order in which
/// they are tried and reported.
pub open spec fn known_hosts() -> Seq<Seq<char>> {
    seq![
        "https://d1m7jfoe9zdc1j.cloudfront.net"@,
        "https://d1mhjrowxxagfy.cloudfront.net"@,
        "https://d1ymi26ma8va5x.cloudfront.net"@,
        "https://d2aba1wr3818hz.cloudfront.net"@,
        "https://d2e2de1etea730.cloudfront.net"@,
        "https://d2nvs31859zcd8.cloudfront.net"@,
        "https://d2vjef5jvl6bfs.cloudfront.net"@,
        "https://d3aqoihi2n8ty8.cloudfront.net"@,
        "https://d3c27h4odz752x.cloudfront.net"@,
        "https://d3vd9lfkzbru3h.cloudfront.net"@,
        "https://ddacn6pr5v0tl.cloudfront.net"@,
        "https://dgeft87wbj63p.cloudfront.net"@,
        "https://dqrpb9wgowsf5.cloudfront.net"@,
        "https://ds0h3roq6wcgc.cloudfront.net"@,
    ]
}

/// The known delivery hosts. Which of them holds a given recording is not
/// published: it is found by asking each.
pub fn cdn_hosts() -> (r: Vec<String>)
    ensures
        texts(r@) == known_hosts(),
        r@.len() == 14,
{
    let mut r: Vec<String> = Vec::new();
    r.push(String::from_str("https://d1m7jfoe9zdc1j.cloudfront.net"));
    r.push(String::from_str("https://d1mhjrowxxagfy.cloudfront.net"));
    r.push(String::from_str("https://d1ymi26ma8va5x.cloudfront.net"));
    r.push(String::from_str("https://d2aba1wr3818hz.cloudfront.net"));
    r.push(String::from_str("https://d2e2de1etea730.cloudfront.net"));
    r.push(String::from_str("https://d2nvs31859zcd8.cloudfront.net"));
    r.push(String::from_str("https://d2vjef5jvl6bfs.cloudfront.net"));
    r.push(String::from_str("https://d3aqoihi2n8ty8.cloudfront.net"));
    r.push(String::from_str("https://d3c27h4odz752x.cloudfront.net"));
    r.push(String::from_str("https://d3vd9lfkzbru3h.cloudfront.net"));
    r.push(String::from_str("https://ddacn6pr5v0tl.cloudfront.net"));
    r.push(String::from_str("https://dgeft87wbj63p.cloudfront.net"));
    r.push(String::from_str("https://dqrpb9wgowsf5.cloudfront.net"));
    r.push(String::from_str("https://ds0h3roq6wcgc.cloudfront.net"));
    assert(texts(r@) =~= known_hosts());
    r
}

/// The link at which `host` would serve the recording stored under
/// `media_key`, in the one rendition that is asked for.
pub open spec fn link_of(host: Seq<char>, media_key: Seq<char>) -> Seq<char> {
    host + "/"@ + media_key + "/720p60/index-dvr.m3u8"@
}

/// The links of one recording on each of `hosts`, in their order.
pub open spec fn links_of(hosts: Seq<Seq<char>>, media_key: Seq<char>) -> Seq<Seq<char>> {
    Seq::new(hosts.len(), |i: int| link_of(hosts[i], media_key))
}

/// Composes the delivery link of a recording on one host.
pub fn candidate_link(host: &str, media_key: &str) -> (r: String)
    ensures
        r@ == link_of(host@, media_key@),
{
    let mut r = String::from_str(host);
    r.append("/");
    r.append(media_key);
    r.append("/720p60/index-dvr.m3u8");
    r
}

/// Composes one candidate link for each host, in the order of the hosts.
pub fn candidate_links(hosts: &Vec<String>, media_key: &str) -> (r: Vec<String>)
    ensures
        texts(r@) == links_of(texts(hosts@), media_key@),
{
    let mut r: Vec<String> = Vec::new();
    let mut i: usize = 0;
    while i < hosts.len()
        invariant
            i <= hosts@.len(),
            r@.len() == i,
            forall|k: int| 0 <= k < i ==> (#[trigger] r@[k])@ == link_of(hosts@[k]@, media_key@),
        decreases hosts@.len() - i,
    {
        r.push(candidate_link(hosts[i].as_str(), media_key));
        i += 1;
    }
    assert(texts(r@) =~= links_of(texts(hosts@), media_key@));
    r
}

/// The candidate links of the recording that a metadata response describes,
/// one for each known host.
pub open spec fn candidates_of(doc: Seq<char>) -> Result<Seq<Seq<char>>, Error> {
    match decoded_video(doc) {
        Err(e) => Err(e),
        Ok(video) => match decoded_thumbnail(video.thumbnail_url) {
            Err(e) => Err(e),
            Ok(path) => Ok(links_of(known_hosts(), path.media_key)),
        },
    }
}

/// Decodes a metadata response and composes the link to probe on each known
/// host, in the order of the hosts.
pub fn vod_candidates(vod_info: &str) -> (r: Result<Vec<String>, Error>)
    ensures
        match r {
            Ok(links) => candidates_of(vod_info@) == Ok::<Seq<Seq<char>>, Error>(texts(links@))
                && links@.len() == 14,
            Err(e) => candidates_of(vod_info@) == Err::<Seq<Seq<char>>, Error>(e),
        },
{
    let video = match decode_video(vod_info) {
        Ok(video) => video,
        Err(e) => { return Err(e); },
    };
    let path = match decode_thumbnail(video.thumbnail_url.as_str()) {
        Ok(path) => path,
        Err(e) => { return Err(e); },
    };
    let hosts = cdn_hosts();
    let links = candidate_links(&hosts, path.media_key.as_str());
    assert(links@.len() == texts(links@).len());
    Ok(links)
}

/// The host that bears the name of a storage id.
pub open spec fn host_of(storage_id: Seq<char>) -> Seq<char> {
    "https://"@ + storage_id + ".cloudfront.net"@
}

/// The first guess at the link of the recording that a metadata response
/// describes: the link on the host named after its storage id.
pub open spec fn estimated_link(doc: Seq<char>) -> Result<Seq<char>, Error> {
    match decoded_video(doc) {
        Err(e) => Err(e),
        Ok(video) => match decoded_thumbnail(video.thumbnail_url) {
            Err(e) => Err(e),
            Ok(path) => Ok(link_of(host_of(path.storage_id), path.media_key)),
        },
    }
}

/// Decodes a metadata response and gives the link of the recording on the
/// host named after its storage id. This is a guess made without asking any
/// host: the recording may be served elsewhere, or nowhere.
pub fn estimate_vod_link(vod_info: String) -> (r: Result<String, Error>)
    ensures
        viewed(r) == estimated_link(vod_info@),
{
    let video = match decode_video(vod_info.as_str()) {
        Ok(video) => video,
        Err(e) => { return Err(e); },
    };
    let path = match decode_thumbnail(video.thumbnail_url.as_str()) {
        Ok(path) => path,
        Err(e) => { return Err(e); },
    };
    let mut host = String::from_str("https://");
    host.append(path.storage_id.as_str());
    host.append(".cloudfront.net");
    Ok(candidate_link(host.as_str(), path.media_key.as_str()))
}

/// Decoding is a function of the template alone: whatever two decodings of
/// one template return, they agree, and so do the links composed from them on
/// any host.
pub proof fn thumbnail_decoding_is_deterministic(
    template: Seq<char>,
    first: Result<ThumbnailPath, Error>,
    second: Result<ThumbnailPath, Error>,
    host: Seq<char>,
)
    requires
        viewed(first) == decoded_thumbnail(template),
        viewed(second) == decoded_thumbnail(template),
    ensures
        viewed(first) == viewed(second),
        first is Ok ==> second is Ok && link_of(host, first->Ok_0.media_key@) == link_of(
            host,
            second->Ok_0.media_key@,
        ),
{
}

/// The request that asks the metadata service for the record of one
/// recording.
pub open spec fn vod_info_request_of(vod_id: Seq<char>, secrets: SecretsView) -> RequestView {
    RequestView {
        method: Method::Get,
        url: "https://api.twitch.tv/helix/videos?id="@ + vod_id,
        headers: seq![
            ("Content-Type"@, "application/json"@),
            ("Client-Id"@, secrets.client_id),
            ("Authorization"@, secrets.oauth_token),
        ],
        body: Seq::empty(),
    }
}

/// Composes the request for the record of the recording `vod_id`, signed
/// with the caller's credentials.
pub fn vod_info_request(vod_id: &str, secrets: &Secrets) -> (r: Request)
    ensures
        r@ == vod_info_request_of(vod_id@, secrets@),
{
    let mut url = String::from_str("https://api.twitch.tv/helix/videos?id=");
    url.append(vod_id);
    let mut headers: Vec<(String, String)> = Vec::new();
    headers.push((String::from_str("Content-Type"), String::from_str("application/json")));
    headers.push((String::from_str("Client-Id"), String::from_str(secrets.client_id())));
    headers.push((String::from_str("Authorization"), String::from_str(secrets.oauth_token())));
    let r = Request { method: Method::Get, url, headers, body: String::new() };
    assert(r@.headers =~= vod_info_request_of(vod_id@, secrets@).headers);
    r
}

/// The links to probe after the metadata service has replied.
pub open spec fn links_to_probe(reply: Reply) -> Result<Seq<Seq<char>>, Error> {
    match json_answer_of(reply) {
        Ok(doc) => candidates_of(doc),
        Err(e) => Err(e),
    }
}

/// Reads the reply of the metadata service and sets up the round of probes:
/// one candidate for each known host, none of them probed yet.
pub fn probes_for(reply: Reply) -> (r: Result<ProbeBoard, Error>)
    ensures
        match r {
            Ok(board) => {
                &&& links_to_probe(reply) == Ok::<Seq<Seq<char>>, Error>(board@.links)
                &&& board@.wf()
                &&& forall|i: int| 0 <= i < board@.marks.len() ==> (#[trigger] board@.marks[i]) is None
            },
            Err(e) => links_to_probe(reply) == Err::<Seq<Seq<char>>, Error>(e),
        },
{
    let doc = match json_body(reply) {
        Ok(doc) => doc,
        Err(e) => { return Err(e); },
    };
    match vod_candidates(doc.as_str()) {
        Ok(links) => Ok(ProbeBoard::new(links)),
        Err(e) => Err(e),
    }
}

} // verus!
