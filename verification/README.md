# wexif

A tool that rewrites the EXIF metadata of photos from a JSON description
(`exif.json`), optionally written by an AI model, and that also serves its
tools over the Model Context Protocol.

- `src/` is the library, verified with Verus: the text formats of the
  description (`formats`, on top of `text`), the EXIF fields built from it and
  their TIFF encoding (`exif_writer`), the JPEG APP1 splicing (`jpeg`), the
  report of an image's existing fields (`exif_reader`), the command of the AI
  helper (`ai_generator`), the decisions of the MCP server (`mcp_server`) and
  of the command line (`cli`).
- `app/` is the program around it: argument parsing, files, the external AI
  command, the JSON-RPC loop on standard input and output, and the two
  readings of decimal numbers that go through floating point.
- `tests/` runs the library on concrete values.
