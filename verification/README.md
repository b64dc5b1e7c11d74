# actix_governor

Rate limiting for actix-web services, keyed by client, on `governor`'s keyed
GCRA rate limiter.

- `src/` is the verified library: the configuration builder (`config`), the
  time spans it takes (`duration`), the keyed limiter of `governor` behind its
  trusted interface (`limiter`), the verdict on each request and the headers and
  message of the answer (`decision`), and decimal rendering (`decimal`).
- `app/` is the actix-web middleware that reads requests, extracts their keys,
  asks the library for the verdict and carries it out.
- `tests/` runs the library on concrete configurations and requests.
