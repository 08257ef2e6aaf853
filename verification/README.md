# ffstudio

A keyboard-driven ffmpeg front end for the terminal (Termux and any Linux
terminal), with its planning logic verified by Verus.

## Layout

- `src/` — the verified library. Presets and the ffmpeg arguments they
  produce (`profiles`, `ffmpeg`), output paths, the job plan and the queue
  (`app`), what each key does (`keys`), the file browser (`browse`), the
  parallel plan (`cpu`), concat merges (`merge`), ffmpeg's progress lines
  (`progress`), error texts (`errors`), layout arithmetic (`ui`), settings
  (`config`) and the interface texts in Turkish and English (`lang`).
  Every public function carries a contract; the laws of the library are
  public proof functions or clauses of those contracts.
- `app/` — the program around it: terminal drawing and events, running
  ffmpeg and ffprobe, the file system and the settings file.
- `tests/` — tests on concrete values.

Paths are read by the Unix rules (`/` separates components). The desktop
(egui) interface is not part of this project; the rules it applies to
desktop jobs and merges (`desktop_output`, `desktop_spec_for`, `merge`)
are in the library.

Some properties that are proved:

- the command shown in the preview is the command that runs;
- a `-threads` given by the user comes after the automatic one;
- no job handed to ffmpeg writes over its own input;
- a source file is deleted or moved only after its output was checked;
- the parallel plan never gives more threads than the processor has
  (beyond one per job), and a single job gets all of them.
