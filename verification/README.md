# audio_player

A terminal audio player. `src/` is the verified core: song records, looped
playback of decoded PCM (`playback`), collection of a track's decoded
samples (`samples`), opening and demuxing a song's bytes (`media`), error texts (`errors`), input handling (`input`), the
screen layout (`layout`), the bordered song panel drawn as text (`block`)
and the placeholder waveform (`waveform`). `app/` is the program around it:
terminal set-up and drawing, reading input, reading song files, decoding packets into
floating-point samples and talking to the sound server.
