# om_rs

A client for the [OpenModelica](https://openmodelica.org/) Compiler (OMC), verified with Verus.
It starts an OMC server, talks to it over ZeroMQ, builds models and runs their simulations.
Only Linux is supported.

## Layout

- `src/` is the library: what is sent to the server and what its replies mean, which files and
  arguments a process gets, and which error is reported when. All of it is verified.
  - `text`, `path`: operations on text and on paths
  - `message`: messages of the transport, as frames of bytes
  - `expression`: the expressions that the server evaluates
  - `results`: the results of a build, read from a reply
  - `exchange`: the conversation that evaluates one expression
  - `connector`: the search for the address of a server that was just started
  - `identity`, `session`: a session, its files and its server
  - `options`, `system`: a model that was built, and its simulations
  - `setup`: the conversations that turn a model file into such a model
  - `error`: the errors
- `app/` runs the processes, sockets and files around the library.
- `tests/` runs the library.

The library hands out what is to be done (a message to send, a file to read, a process to start)
and is handed what came of it. What it knows of other crates stands in a few declarations, each
with a comment that says what is taken for granted: messages and buffers in `message`, the user
and random texts in `identity`, and three functions of the standard library on texts.
