# voice_input

Local voice input: a recording is transcribed, its text is tidied up, and the result goes to the
standard output or to the clipboard. An agent keeps a model loaded and takes commands from clients.

The library under `src/` is written in Verus. It holds everything that decides or computes, with
contracts that Verus proves:

| module | what it holds |
| --- | --- |
| `session`, `pipeline` | the state of a session and the coordinator that runs it through its stages |
| `agent`, `server`, `protocol` | the agent: its commands, what its server queues, answers or refuses, and its line protocol |
| `post_process` | trimming, spaces, dictionary, endings |
| `sinks` | what is written, plain or as JSON, and what is reported |
| `recorder`, `transcriber`, `wav` | what a recorder, a whisper transcriber and WAV files need besides the devices, the model and the disk |
| `cli`, `flags` | the command line |
| `model`, `traits`, `error`, `cancellation`, `duration`, `text` | what all of them share |

The program under `app/` does the rest: audio devices (`cpal`), the model (`whisper-rs`), the
clipboard (`arboard`), Ctrl-C (`ctrlc`), files, sockets, threads, and arithmetic on floating point
samples, which the library carries as bit patterns.

What the proofs rest on besides Verus and its library is marked in the source:

- `String::push`, in `text`, and `String::from_utf8`, in `protocol`;
- `SystemTime` and `SystemTime::now`, in `model`, of which nothing is claimed;
- reading the header and the 16-bit samples of a WAV file with `hound`, in `wav`, whose results have
  names and are not described further.
