# llm_kit

A toolkit for talking to language-model providers, verified with Verus.

- `src/` is the verified library: headers, the error type and its texts,
  retry policy and the parsing of retry hints, media-type sniffing, base64
  files, the planning of batched embedding and image calls, provider tool
  definitions (Anthropic's bash, code execution, computer, memory, text
  editor, web fetch and web search tools), the outputs of a generation step,
  the messages a step adds to the conversation, stop conditions and the
  decisions of the multi-step generation loop.
- `tests/` runs the library on concrete values.
- `app/` holds what waits, sleeps or calls a model: the asynchronous retry
  loop, the text generation loop, batched embedding, and the results that
  carry `f64` embeddings.
