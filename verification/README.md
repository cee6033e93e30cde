# gemini_multimodal_mcp

An MCP server that lets text-only language models describe images, video and
audio through the `agy` command line tool.

The decisions of the server are a library verified with Verus (`src/`):

- `text`: strings as sequences of characters; trimming, ASCII case, search,
  splitting, each proved against its model.
- `models`: parsing the output of `agy models`, classifying models, the
  guidance text and the validation of a requested model.
- `prompts`: the prompt sent to `agy`.
- `input`: what a tool's input names (local path or base64 `data:` URI), with
  remote URLs and other schemes refused.
- `probe`: the kind and length of media from the first bytes of a file and
  the streams of its container.
- `agy`: reading the answer of a run of `agy`.
- `server`: model choice, the server's instructions, the checks of a tool
  call (input type, length, model name) and the model cache.
- `cli`: the command line.

`app/` is the program around it: process and file I/O, FFmpeg, the tokio
runtime and the `rmcp` server.
