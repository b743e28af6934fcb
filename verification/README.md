# skycam

A station that captures images with an astronomical camera, adapts the exposure, attaches the
position of a GPS receiver and saves the images as FITS and PNG files.

- `src/` is the verified library: every decision of the station, the geometry of image grids, the
  scaling passes, the recorded GPS messages, and the durations and node names of the configuration.
  Each function has a contract, and the laws of the station are public proof functions whose names
  begin with `law_`.
- `app/` is the program around it: the command line, the configuration document, devices, files,
  threads and logging. It performs the actions that the library asks for and hands the outcomes
  back.
- `tests/` runs the library on concrete values.

| module    | what it decides                                                            |
|-----------|----------------------------------------------------------------------------|
| `run`     | the stages of a run, recovery, exposure settings, the temperature monitor  |
| `connect` | which camera is used                                                       |
| `setup`   | the settings of a camera, and which failures they survive                  |
| `capture` | which images are saved, and when the exposure changes                      |
| `save`    | directory and file names, header cards, the forms of an image              |
| `frame`   | how mosaics become colours and frames become pictures                      |
| `gps`     | what is known from a receiver                                              |
| `mock`    | a receiver that plays recorded messages                                    |
| `config`  | the configuration and its values                                           |
| `grid`    | grids of square cells over an image                                        |
| `raster`  | eight-bit RGB images, cropping and resampling                              |
| `scaler`  | scaling in software, and the parts of an image                             |
| `vpss`    | scaling on a video processing subsystem                                    |
| `time`    | lengths of time                                                            |
