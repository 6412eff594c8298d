# rxtd

Converts presets of the RX1200 drum machine (`.rx1200` files) into TAL-Drum presets
(`.taldrum` files).

- `src/` is the library, verified with Verus: the preset as read (`rx`), the drum
  machine's settings that it describes (`intermediate`), the TAL-Drum preset built from
  them (`td`), the length of a sample read from its audio file's bytes (`audio`), and the
  completion of typed directory paths and the steps of the directory dialog (`cli`), and
  the remembered folders (`config`). Real-valued settings
  travel through it as IEEE-754 bit patterns.
- `app/` is the command-line program around it: the prompts, the configuration file,
  reading and writing XML, looking sample files up and reading them from disk, and the floating-point
  arithmetic of the conversion.
- `tests/` runs the library on concrete presets.
