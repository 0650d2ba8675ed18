# media_proxy

A proxy that takes media objects from configured services, keeps them in storage, scales images
down to the widths that clients ask for, and answers with cache headers.

The library under `src/` holds every decision and is verified with Verus:

- `config`: settings, their defaults, and the allow lists;
- `names`, `storage`: how objects are named, where their files lie, and at which address a service
  keeps them;
- `media`, `headers`: media types, and the headers of upstream answers;
- `object`, `session`, `fetch`: a request for an image as a state machine, from the outcome of one
  piece of outside work to the next;
- `twitter`, `forward`, `response`: the other requests, and the answers to clients;
- `laws`: what holds of every request, however the outside work turns out.

`app/` is the server around it: routing, HTTP, files and image codecs. It calls `ffmpeg` for MP4
videos and `rsvg-convert` for SVG drawings.
