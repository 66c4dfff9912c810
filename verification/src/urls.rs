//! Media source URLs, derived from a media identifier by string interpolation
//! into one of two fixed templates: an HLS manifest for the streaming players,
//! and a direct file download for native playback.

use vstd::prelude::*;
use vstd::string::StringExecFns;

verus! {

/// The host prefix shared by both templates.
pub open spec fn stream_host() -> Seq<char> {
    "https://customer-2p3jflss4r4hmpnz.cloudflarestream.com/"@
}

/// Path appended after the identifier on the streaming pages.
pub open spec fn manifest_tail() -> Seq<char> {
    "/manifest/video.m3u8"@
}

/// Path appended after the identifier on the native-playback page.
pub open spec fn download_tail() -> Seq<char> {
    "/downloads/default.mp4"@
}

/// The streaming-manifest URL of one media identifier.
pub open spec fn spec_manifest_url(id: Seq<char>) -> Seq<char> {
    stream_host() + id + manifest_tail()
}

/// The downloadable-file URL of one media identifier.
pub open spec fn spec_download_url(id: Seq<char>) -> Seq<char> {
    stream_host() + id + download_tail()
}

/// Builds the HLS manifest URL for one media identifier.
pub fn manifest_url(id: &str) -> (r: String)
    ensures
        r@ == spec_manifest_url(id@),
{
    let base: String = "https://customer-2p3jflss4r4hmpnz.cloudflarestream.com/".to_owned();
    base.concat(id).concat("/manifest/video.m3u8")
}

/// Builds the direct-download URL for one media identifier.
pub fn download_url(id: &str) -> (r: String)
    ensures
        r@ == spec_download_url(id@),
{
    let base: String = "https://customer-2p3jflss4r4hmpnz.cloudflarestream.com/".to_owned();
    base.concat(id).concat("/downloads/default.mp4")
}

/// No two identifiers share a streaming URL: the template is injective.
pub proof fn lemma_manifest_url_injective(a: Seq<char>, b: Seq<char>)
    requires
        spec_manifest_url(a) == spec_manifest_url(b),
    ensures
        a == b,
{
    let h = stream_host().len() as int;
    assert(spec_manifest_url(a).len() == stream_host().len() + a.len() + manifest_tail().len());
    assert(spec_manifest_url(b).len() == stream_host().len() + b.len() + manifest_tail().len());
    assert(a.len() == b.len());
    assert forall|i: int| 0 <= i < a.len() implies a[i] == b[i] by {
        assert(spec_manifest_url(a)[h + i] == a[i]);
        assert(spec_manifest_url(b)[h + i] == b[i]);
    }
    assert(a =~= b);
}

/// No two identifiers share a download URL: the template is injective.
pub proof fn lemma_download_url_injective(a: Seq<char>, b: Seq<char>)
    requires
        spec_download_url(a) == spec_download_url(b),
    ensures
        a == b,
{
    let h = stream_host().len() as int;
    assert(spec_download_url(a).len() == stream_host().len() + a.len() + download_tail().len());
    assert(spec_download_url(b).len() == stream_host().len() + b.len() + download_tail().len());
    assert(a.len() == b.len());
    assert forall|i: int| 0 <= i < a.len() implies a[i] == b[i] by {
        assert(spec_download_url(a)[h + i] == a[i]);
        assert(spec_download_url(b)[h + i] == b[i]);
    }
    assert(a =~= b);
}

/// Every derived URL is non-empty, whatever the identifier.
pub proof fn lemma_urls_nonempty(id: Seq<char>)
    ensures
        spec_manifest_url(id).len() > 0,
        spec_download_url(id).len() > 0,
{
    reveal_strlit("https://customer-2p3jflss4r4hmpnz.cloudflarestream.com/");
}

} // verus!
