//! The community text-to-speech backend: its configuration, the shapes
//! of its speaker catalogue, and the catalogue transforms used by the
//! configuration menus.
use vstd::prelude::*;

verus! {

/// Connection settings for the community backend: a hosted-service key
/// or the address of a self-hosted engine.
#[derive(Debug, Clone)]
pub struct VOICEVOX {
    pub key: Option<String>,
    pub original_api_url: Option<String>,
}

impl VOICEVOX {
    pub fn new(key: Option<String>, original_api_url: Option<String>) -> (r: Self)
        ensures
            r.key == key,
            r.original_api_url == original_api_url,
    {
        VOICEVOX { key, original_api_url }
    }
}

/// One speaker of the community backend's catalogue.
#[derive(Debug, Clone)]
pub struct Speaker {
    pub supported_features: SupportedFeatures,
    pub name: String,
    pub speaker_uuid: String,
    pub styles: Vec<Style>,
    pub version: String,
}

#[derive(Debug, Clone)]
pub struct SupportedFeatures {
    pub permitted_synthesis_morphing: String,
}

/// One voice style of a speaker, selectable by its id.
#[derive(Debug, Clone)]
pub struct Style {
    pub name: String,
    pub id: i64,
}

/// The streaming-synthesis response of the hosted service.
#[derive(Debug, Clone)]
pub struct TTSResponse {
    pub success: bool,
    pub is_api_key_valid: bool,
    pub speaker_name: String,
    pub audio_status_url: String,
    pub wav_download_url: String,
    pub mp3_download_url: String,
    pub mp3_streaming_url: String,
}

/// The display entry of one style: "speaker - style" with the style id.
pub open spec fn spec_style_entry(sp: Speaker, st: Style) -> (Seq<char>, i64) {
    (sp.name@ + " - "@ + st.name@, st.id)
}

/// The display entries of all of one speaker's styles, in catalogue order.
pub open spec fn spec_speaker_styles(sp: Speaker) -> Seq<(Seq<char>, i64)> {
    sp.styles@.map(|_i: int, st: Style| spec_style_entry(sp, st))
}

/// The display entries of a whole catalogue, speaker by speaker.
pub open spec fn spec_styles_list(speakers: Seq<Speaker>) -> Seq<(Seq<char>, i64)>
    decreases speakers.len(),
{
    if speakers.len() == 0 {
        Seq::empty()
    } else {
        spec_styles_list(speakers.drop_last()) + spec_speaker_styles(speakers.last())
    }
}

/// Turns a speaker catalogue into the flat "speaker - style" list shown
/// in the voice-selection menu.
#[verifier::loop_isolation(false)]
pub fn styles_of_speakers(speakers: &Vec<Speaker>) -> (r: Vec<(String, i64)>)
    ensures
        r@.len() == spec_styles_list(speakers@).len(),
        forall|i: int|
            0 <= i < r@.len() ==> ((#[trigger] r@[i]).0@, r@[i].1) == spec_styles_list(speakers@)[i],
{
    let mut out: Vec<(String, i64)> = Vec::new();
    let mut i: usize = 0;
    while i < speakers.len()
        invariant
            i <= speakers@.len(),
            out@.len() == spec_styles_list(speakers@.subrange(0, i as int)).len(),
            forall|k: int|
                0 <= k < out@.len() ==> ((#[trigger] out@[k]).0@, out@[k].1) == spec_styles_list(
                    speakers@.subrange(0, i as int),
                )[k],
        decreases speakers@.len() - i,
    {
        let sp = &speakers[i];
        let ghost prefix = speakers@.subrange(0, i as int);
        let mut j: usize = 0;
        while j < sp.styles.len()
            invariant
                j <= sp.styles@.len(),
                sp == speakers@[i as int],
                0 <= i < speakers@.len(),
                prefix == speakers@.subrange(0, i as int),
                out@.len() == spec_styles_list(prefix).len() + j,
                forall|k: int|
                    0 <= k < spec_styles_list(prefix).len() ==> ((#[trigger] out@[k]).0@,
                    out@[k].1) == spec_styles_list(prefix)[k],
                forall|k: int|
                    0 <= k < j ==> ((#[trigger] out@[spec_styles_list(prefix).len() + k]).0@,
                    out@[spec_styles_list(prefix).len() + k].1) == spec_style_entry(
                        *sp,
                        sp.styles@[k],
                    ),
            decreases sp.styles@.len() - j,
        {
            let st = &sp.styles[j];
            let mut label = sp.name.clone();
            label.append(" - ");
            label.append(st.name.as_str());
            let id = st.id;
            out.push((label, id));
            j = j + 1;
        }
        i = i + 1;
        proof {
            let prefix2 = speakers@.subrange(0, i as int);
            assert(prefix2.drop_last() =~= prefix);
            assert(prefix2.last() == speakers@[i - 1]);
            assert(spec_styles_list(prefix2) == spec_styles_list(prefix) + spec_speaker_styles(
                speakers@[i - 1],
            ));
            assert(spec_speaker_styles(speakers@[i - 1]).len() == speakers@[i - 1].styles@.len());
            assert forall|k: int| 0 <= k < out@.len() implies ((#[trigger] out@[k]).0@, out@[k].1)
                == spec_styles_list(prefix2)[k] by {
                let plen = spec_styles_list(prefix).len() as int;
                if k >= plen {
                    let kk = k - plen;
                    assert(((#[trigger] out@[plen + kk]).0@, out@[plen + kk].1) == spec_style_entry(
                        *sp,
                        sp.styles@[kk],
                    ));
                    assert(plen + kk == k);
                    assert(spec_styles_list(prefix2)[k] == spec_speaker_styles(speakers@[i - 1])[k
                        - plen]);
                    assert(spec_speaker_styles(speakers@[i - 1])[k - plen] == spec_style_entry(
                        speakers@[i - 1],
                        speakers@[i - 1].styles@[k - plen],
                    ));
                }
            }
        }
    }
    proof {
        assert(speakers@.subrange(0, speakers@.len() as int) =~= speakers@);
    }
    out
}

/// Turns a speaker catalogue into the list of speaker names, in order.
#[verifier::loop_isolation(false)]
pub fn names_of_speakers(speakers: &Vec<Speaker>) -> (r: Vec<String>)
    ensures
        r@.len() == speakers@.len(),
        forall|i: int| 0 <= i < r@.len() ==> (#[trigger] r@[i])@ == speakers@[i].name@,
{
    let mut out: Vec<String> = Vec::new();
    let mut i: usize = 0;
    while i < speakers.len()
        invariant
            i <= speakers@.len(),
            out@.len() == i,
            forall|k: int| 0 <= k < i ==> (#[trigger] out@[k])@ == speakers@[k].name@,
        decreases speakers@.len() - i,
    {
        out.push(speakers[i].name.clone());
        i = i + 1;
    }
    out
}

} // verus!
