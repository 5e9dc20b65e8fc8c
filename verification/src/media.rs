//! Opening a song for decoding: its file's bytes are probed for a
//! container format, the default track is chosen, its decoder is made,
//! and the container's packets are read one after another.
//!
//! The demuxing is symphonia's. What it produces depends on the bytes
//! alone, so its results are named over the bytes; the order of the steps,
//! the errors, and what is done with each packet are this module's. The
//! decoder turns packets into floating-point samples, which this library
//! does not hold; the caller decodes the packets that `next_packet_action`
//! asks for, with the decoder and the packet that the stream holds.

use vstd::prelude::*;
use crate::errors::AudioError;
use crate::samples::{PacketAction, PacketRead, SampleCollector};

verus! {

/// A media stream opened on a song's bytes: symphonia's demuxer for it,
/// the decoder of its default track once made, and the packet last read.
///
/// Its parts are trait objects of symphonia's traits, which Verus cannot
/// be told of, so the struct is opaque; `media_state` says what the
/// contracts know of it. The decoder and the packet are open to the
/// caller, which decodes.
#[verifier::external_body]
pub struct MediaTrack {
    format: Box<dyn symphonia::core::formats::FormatReader>,
    pub decoder: Option<Box<dyn symphonia::core::codecs::Decoder>>,
    pub packet: Option<symphonia::core::formats::Packet>,
}

/// What is known of an opened stream: the bytes it was opened on, how
/// many packets were read from it, and whether its decoder is made.
pub uninterp spec fn media_state(media: MediaTrack) -> (Seq<u8>, nat, bool);

/// The text of symphonia's error where probing `bytes` for a container
/// format fails; `None` where it succeeds.
pub uninterp spec fn probe_error(bytes: Seq<u8>) -> Option<Seq<char>>;

/// The id and the reported sample rate of the default track of the
/// container in `bytes`, if it has one.
pub uninterp spec fn default_track_of(bytes: Seq<u8>) -> Option<(u32, Option<u32>)>;

/// The text of symphonia's error where no decoder can be made for the
/// codec of the default track in `bytes`; `None` where one can.
pub uninterp spec fn decoder_error(bytes: Seq<u8>) -> Option<Seq<char>>;

/// What the read at position `index` of the packet stream of `bytes`
/// gives: a packet and its track, or the end (a failed read).
pub uninterp spec fn stream_packet(bytes: Seq<u8>, index: nat) -> PacketRead;

/// Calls `symphonia::default::get_probe().format` on `bytes`, read from
/// memory, with no hint, gapless playback on and default metadata options.
/// Claimed of it: it fails exactly where `probe_error` says, with that
/// text; a stream it opens has read nothing and has no decoder yet.
#[verifier::external_body]
fn probe_media(bytes: &[u8]) -> (res: Result<MediaTrack, String>)
    ensures
        match res {
            Ok(media) => probe_error(bytes@) is None && media_state(media) == (
                bytes@,
                0nat,
                false,
            ),
            Err(detail) => probe_error(bytes@) == Some(detail@),
        },
{
    let source = std::io::Cursor::new(bytes.to_vec());
    let stream = symphonia::core::io::MediaSourceStream::new(Box::new(source), Default::default());
    let options = symphonia::core::formats::FormatOptions { enable_gapless: true, ..Default::default() };
    match symphonia::default::get_probe().format(&Default::default(), stream, &options, &Default::default()) {
        Ok(probed) => Ok(MediaTrack { format: probed.format, decoder: None, packet: None }),
        Err(err) => Err(err.to_string()),
    }
}

/// Calls `FormatReader::default_track` and reads the track's id and its
/// codec's sample rate. Claimed of it: the result is `default_track_of`
/// of the stream's bytes.
#[verifier::external_body]
fn track_info(media: &MediaTrack) -> (info: Option<(u32, Option<u32>)>)
    requires
        media_state(*media).1 == 0,
    ensures
        info == default_track_of(media_state(*media).0),
{
    media.format.default_track().map(|track| (track.id, track.codec_params.sample_rate))
}

/// Calls `symphonia::default::get_codecs().make` on the default track's
/// codec parameters, with verification on. Claimed of it: it fails exactly
/// where `decoder_error` says, with that text, and leaves the stream as it
/// was; else the stream has its decoder.
#[verifier::external_body]
fn attach_decoder(media: &mut MediaTrack) -> (res: Result<(), String>)
    requires
        default_track_of(media_state(*old(media)).0) is Some,
        media_state(*old(media)).1 == 0,
        !media_state(*old(media)).2,
    ensures
        match res {
            Ok(()) => decoder_error(media_state(*old(media)).0) is None && media_state(*final(media))
                == (media_state(*old(media)).0, 0nat, true),
            Err(detail) => decoder_error(media_state(*old(media)).0) == Some(detail@) && media_state(
                *final(media),
            ) == media_state(*old(media)),
        },
{
    let options = symphonia::core::codecs::DecoderOptions { verify: true };
    let made = match media.format.default_track() {
        Some(track) => symphonia::default::get_codecs().make(&track.codec_params, &options),
        None => return Err(String::new()),
    };
    match made {
        Ok(decoder) => {
            media.decoder = Some(decoder);
            Ok(())
        },
        Err(err) => Err(err.to_string()),
    }
}

/// Calls `FormatReader::next_packet` and keeps the packet. Claimed of it:
/// the outcome is `stream_packet` at the current position (an error is the
/// end), and the position moves one on.
#[verifier::external_body]
fn read_packet(media: &mut MediaTrack) -> (read: PacketRead)
    ensures
        read == stream_packet(media_state(*old(media)).0, media_state(*old(media)).1),
        media_state(*final(media)) == (
            media_state(*old(media)).0,
            media_state(*old(media)).1 + 1,
            media_state(*old(media)).2,
        ),
{
    match media.format.next_packet() {
        Ok(packet) => {
            let id = packet.track_id();
            media.packet = Some(packet);
            PacketRead::Packet(id)
        },
        Err(_) => {
            media.packet = None;
            PacketRead::End
        },
    }
}

/// Whether `error` is the error that opening `bytes` fails with: a probe
/// failure, else a missing default track, else a codec without decoder.
pub open spec fn open_failure(bytes: Seq<u8>, error: AudioError) -> bool {
    match probe_error(bytes) {
        Some(detail) => error matches AudioError::UnsupportedFormat(text) && text@ == detail,
        None => match default_track_of(bytes) {
            None => error matches AudioError::NoDefaultTrack,
            Some(_) => decoder_error(bytes) matches Some(detail) && error matches AudioError::UnsupportedCodec(
                text,
            ) && text@ == detail,
        },
    }
}

/// Whether opening `bytes` succeeds: the probe finds a format, the
/// container has a default track, and its codec has a decoder.
pub open spec fn opens(bytes: Seq<u8>) -> bool {
    &&& probe_error(bytes) is None
    &&& default_track_of(bytes) is Some
    &&& decoder_error(bytes) is None
}

/// Opens the media stream in `bytes` and makes the decoder of its default
/// track. Returns the stream, the track's id and its reported sample rate.
pub fn open_track(bytes: &[u8]) -> (res: Result<(MediaTrack, u32, Option<u32>), AudioError>)
    ensures
        res is Ok <==> opens(bytes@),
        res matches Ok((media, id, rate)) ==> {
            &&& default_track_of(bytes@) == Some((id, rate))
            &&& media_state(media) == (bytes@, 0nat, true)
        },
        res matches Err(error) ==> open_failure(bytes@, error),
{
    let mut media = match probe_media(bytes) {
        Ok(media) => media,
        Err(detail) => return Err(AudioError::UnsupportedFormat(detail)),
    };
    let (id, rate) = match track_info(&media) {
        Some(info) => info,
        None => return Err(AudioError::NoDefaultTrack),
    };
    match attach_decoder(&mut media) {
        Ok(()) => Ok((media, id, rate)),
        Err(detail) => Err(AudioError::UnsupportedCodec(detail)),
    }
}

/// Reads the next packet of the stream and decides on it for `collector`:
/// a failed read finishes loading, a packet of the collector's track is to
/// be decoded, any other packet is skipped.
pub fn next_packet_action<T: Copy>(media: &mut MediaTrack, collector: &SampleCollector<T>) -> (action:
    PacketAction)
    ensures
        media_state(*final(media)) == (
            media_state(*old(media)).0,
            media_state(*old(media)).1 + 1,
            media_state(*old(media)).2,
        ),
        action == match stream_packet(media_state(*old(media)).0, media_state(*old(media)).1) {
            PacketRead::End => PacketAction::Finish,
            PacketRead::Packet(id) => if id == collector@.0 {
                PacketAction::Decode
            } else {
                PacketAction::Skip
            },
        },
{
    let read = read_packet(media);
    collector.on_packet(read)
}

} // verus!
