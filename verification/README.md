# rhisper_core

Dictation at the cursor for Linux: record with a key press, stop with the
next one, transcribe with Whisper (Groq, OpenAI or any compatible endpoint),
and type the transcript where the cursor is.

`src/` is the verified library. It holds the logic of the tool and its
contracts:

- `ipc` - the one- and two-byte command protocol between client and daemon.
- `keymap` - ASCII to kernel keycode tables for the US, Danish and Spanish
  layouts, proved to map exactly the typeable characters to registered keys.
- `uinput` - the key events and pauses behind each daemon command, proved
  to release every key they press.
- `paste`, `dictation` - how a transcript reaches the cursor in each paste
  mode (proved to deliver exactly the text and to restore the clipboard where
  promised), and the record/stop toggle as a state machine.
- `config`, `placeholder`, `provider`, `audio`, `silence`, `setup`, `tool` -
  the rhisperrc format, status texts and notifications, transcription
  requests and responses, capture sources, the `silencedetect` report, the
  `~/.env` file and the `rhispertool` command line.
- `text`, `literal`, `input` - character-level text handling, numeric text,
  and the wrap keys.

`app/` carries the plans out: processes, files, sockets, the clipboard, the
virtual keyboard and HTTP. It builds one binary that runs as `rhisper`,
`rhispertool` or `rhispertoold` depending on the name it is invoked under.
