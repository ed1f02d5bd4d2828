# smashnet_nro

A Skyline plugin for Super Smash Bros. Ultimate that drives the game's own
libcurl to download files and text, offers that to other plugins through a C
interface, and keeps itself up to date from its nightly release.

- `src/` is the verified library (Verus). It decides everything the plugin
  does: `download` is the download as a state machine (which file operations
  and which libcurl options, in which order, and what a failure of each means),
  `curler` the owner of an easy handle and the text GET built on a download,
  `update` the self-update check (MD5 of the installed build against the
  published checksum), `request` the plain HTTP GET through `minreq`, `curl`
  libcurl's codes, and `text` the strings these build.
- `app/` is the plugin itself: skyline hooks and offsets into the game's
  libcurl, file I/O, the dialog, and the exported C functions. It performs the
  work the library's machines ask for and answers them.
- `tests/` run the library on concrete inputs.
