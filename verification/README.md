# neaponoise

The verified core of Neapolitan Noise, a three-flavor noise generator
(white, brown and pink noise behind a single row of controls).

- `src/` is the library, checked by Verus:
  - `noise`: the flavors, their stored codes and names, and the xorshift
    source that feeds every noise channel;
  - `palette`: the per-flavor color schemes and picker band colors;
  - `audio`: the parameters shared with the audio callback, and how a frame
    of an interleaved output buffer is written;
  - `controls`: the persisted settings, volume steps, and the playback
    transport that fades a stream out before dropping it.
- `app/` is the desktop program around it: the egui window, the cpal output
  stream and the floating-point filters.
- `tests/` exercises the library on concrete values.
