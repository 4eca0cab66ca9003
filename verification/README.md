# web_content_extract

A web-content extraction service. `src/` is the verified library (Verus):

- `text`: Unicode white space, trimming, substring search, newline-to-`<br>`.
- `direct`: whether a page fetched over plain HTTP is accepted or refused.
- `encoding`: URL-safe base64 without padding, and proof that it is injective.
- `path`: putting a plain name under a directory as `Path::join` does on
  Unix and on Windows (verbatim directories included).
- `cache`: the on-disk cache layout (one directory per day, a `cache.db`
  index, `<base64url(url)>.html` files, joined with the platform's
  separator) and the same-day hit rule.
- `content`: removing script/style/iframe/noscript elements, Markdown
  conversion, and the OpenAI summary request and reply texts.
- `pool`, `lifecycle`, `page`, `retry`: the browser-context pool, the
  relaunch-every-ten-requests rule, one page load, and the timeout retries.
- `extract`: the state machine of one extraction request.
- `client`: the command-line client's decisions.
- `laws`: properties that span several calls.

`app/` is the gRPC server (and, with `client` as first argument, the client)
that performs the I/O the library's state machines ask for.
