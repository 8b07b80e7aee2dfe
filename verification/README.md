# rtspy

A small RTSP/WebRTC camera toolkit: a streamer that serves the local camera
over RTSP, viewers and workers that show a stream, a controller that launches
and stops workers over HTTP, and bridges that hand an RTSP stream (or a test
pattern) to a browser over WebRTC.

`src/` is the verified library: the decisions of these programs, each with a
contract proved by Verus.

- `text` — decimal numbers and white-space trimming.
- `json` — the calls into `serde_json` (quoting a string, reading a document).
- `signaling` — the messages exchanged with the browser, and what the bridge
  does with each.
- `session` — the state machine of a bridge's signalling session.
- `pipeline` — which RTSP pad to link, bus log lines, the search for the error
  that stopped a pipeline, the texts the bridges and the streamer report.
- `capture` — the viewer loop and the camera loop as state machines.
- `registry` — the controller's table of workers, one per stream URL.
- `api` — the controller's HTTP API and the worker's command line.

`app/` runs the programs (`rtspy controller|worker <url>|streamer|bridge|bridge2|bridge3`):
it performs the I/O — sockets, HTTP, GStreamer, OpenCV, processes — and asks
the library what to do next.
