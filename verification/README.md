# tokimo_app_image_cortex

An image analysis middleware (OCR, face detection, CLIP embedding, GPS reverse
geocoding). The library under `src/` holds the service's decisions, each with a
contract proved by Verus:

- `handlers::analyze` — analysis types, which analyses a request runs, and how
  their outcomes make the answer (a single analysis fails with its error; a
  request for all analyses leaves failed ones out).
- `handlers::settings` — partial updates of the geocoding and AI settings and
  the answers that carry them.
- `handlers::health` — the health and capabilities answers.
- `services::exif_reader`, `services::geo` — the GPS position read from EXIF
  data (through the `exif` crate) and the choice of reverse geocoding request.
- `services::image_loader`, `services::ocr`, `services::clip` — which files are
  decoded to JPEG, which OCR items are kept, the CLIP embedding check.
- `queue::image_cortex_process` — the request a queued job stands for.
- `error` — the errors and how each is answered.

`app/` is the program around it: the HTTP server, the CLI, the AI worker and
geocoding calls, the database, and the floating-point results.
