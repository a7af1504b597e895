# lavaplayer_natives

The verified part of the JNI natives that lavaplayer uses to decode AAC, MP3,
Opus and Vorbis and to convert sample rates.

- `src/` holds, per codec, the decisions that the JNI entry points make on the
  values the native libraries hand back (result-code mapping, request
  building, initialisation steps, decoder lifecycle), with their contracts
  and the laws that relate them.
- `app/` holds the JNI entry points themselves: they fetch the Java buffers,
  call the native libraries through their `-sys` crates and ask `src/` what to
  do with the results.
- `tests/` runs the library on concrete values.
