//! The built-in table of well-known Android attribute names.
//!
//! Resource identifiers for framework attributes start at 0x01010000 and
//! index this table in order.  The table is inert data: entries record
//! the attribute name each identifier stands for, with `UNKNOWN` filling
//! the gaps the framework left unused.

use vstd::prelude::*;

verus! {

/// Number of entries in the built-in attribute-name table.
pub const RESOURCE_NAME_COUNT: u32 = 1329;

/// Entries 0 to 99 of the attribute-name table.
pub open spec fn spec_resource_name_0(i: int) -> Seq<char> {
    if i == 0 {
        "theme"@
    } else if i == 1 {
        "label"@
    } else if i == 2 {
        "icon"@
    } else if i == 3 {
        "name"@
    } else if i == 4 {
        "manageSpaceActivity"@
    } else if i == 5 {
        "allowClearUserData"@
    } else if i == 6 {
        "permission"@
    } else if i == 7 {
        "readPermission"@
    } else if i == 8 {
        "writePermission"@
    } else if i == 9 {
        "protectionLevel"@
    } else if i == 10 {
        "permissionGroup"@
    } else if i == 11 {
        "sharedUserId"@
    } else if i == 12 {
        "hasCode"@
    } else if i == 13 {
        "persistent"@
    } else if i == 14 {
        "enabled"@
    } else if i == 15 {
        "debuggable"@
    } else if i == 16 {
        "exported"@
    } else if i == 17 {
        "process"@
    } else if i == 18 {
        "taskAffinity"@
    } else if i == 19 {
        "multiprocess"@
    } else if i == 20 {
        "finishOnTaskLaunch"@
    } else if i == 21 {
        "clearTaskOnLaunch"@
    } else if i == 22 {
        "stateNotNeeded"@
    } else if i == 23 {
        "excludeFromRecents"@
    } else if i == 24 {
        "authorities"@
    } else if i == 25 {
        "syncable"@
    } else if i == 26 {
        "initOrder"@
    } else if i == 27 {
        "grantUriPermissions"@
    } else if i == 28 {
        "priority"@
    } else if i == 29 {
        "launchMode"@
    } else if i == 30 {
        "screenOrientation"@
    } else if i == 31 {
        "configChanges"@
    } else if i == 32 {
        "description"@
    } else if i == 33 {
        "targetPackage"@
    } else if i == 34 {
        "handleProfiling"@
    } else if i == 35 {
        "functionalTest"@
    } else if i == 36 {
        "value"@
    } else if i == 37 {
        "resource"@
    } else if i == 38 {
        "mimeType"@
    } else if i == 39 {
        "scheme"@
    } else if i == 40 {
        "host"@
    } else if i == 41 {
        "port"@
    } else if i == 42 {
        "path"@
    } else if i == 43 {
        "pathPrefix"@
    } else if i == 44 {
        "pathPattern"@
    } else if i == 45 {
        "action"@
    } else if i == 46 {
        "data"@
    } else if i == 47 {
        "targetClass"@
    } else if i == 48 {
        "colorForeground"@
    } else if i == 49 {
        "colorBackground"@
    } else if i == 50 {
        "backgroundDimAmount"@
    } else if i == 51 {
        "disabledAlpha"@
    } else if i == 52 {
        "textAppearance"@
    } else if i == 53 {
        "textAppearanceInverse"@
    } else if i == 54 {
        "textColorPrimary"@
    } else if i == 55 {
        "textColorPrimaryDisableOnly"@
    } else if i == 56 {
        "textColorSecondary"@
    } else if i == 57 {
        "textColorPrimaryInverse"@
    } else if i == 58 {
        "textColorSecondaryInverse"@
    } else if i == 59 {
        "textColorPrimaryNoDisable"@
    } else if i == 60 {
        "textColorSecondaryNoDisable"@
    } else if i == 61 {
        "textColorPrimaryInverseNoDisable"@
    } else if i == 62 {
        "textColorSecondaryInverseNoDisable"@
    } else if i == 63 {
        "textColorHintInverse"@
    } else if i == 64 {
        "textAppearanceLarge"@
    } else if i == 65 {
        "textAppearanceMedium"@
    } else if i == 66 {
        "textAppearanceSmall"@
    } else if i == 67 {
        "textAppearanceLargeInverse"@
    } else if i == 68 {
        "textAppearanceMediumInverse"@
    } else if i == 69 {
        "textAppearanceSmallInverse"@
    } else if i == 70 {
        "textCheckMark"@
    } else if i == 71 {
        "textCheckMarkInverse"@
    } else if i == 72 {
        "buttonStyle"@
    } else if i == 73 {
        "buttonStyleSmall"@
    } else if i == 74 {
        "buttonStyleInset"@
    } else if i == 75 {
        "buttonStyleToggle"@
    } else if i == 76 {
        "galleryItemBackground"@
    } else if i == 77 {
        "listPreferredItemHeight"@
    } else if i == 78 {
        "expandableListPreferredItemPaddingLeft"@
    } else if i == 79 {
        "expandableListPreferredChildPaddingLeft"@
    } else if i == 80 {
        "expandableListPreferredItemIndicatorLeft"@
    } else if i == 81 {
        "expandableListPreferredItemIndicatorRight"@
    } else if i == 82 {
        "expandableListPreferredChildIndicatorLeft"@
    } else if i == 83 {
        "expandableListPreferredChildIndicatorRight"@
    } else if i == 84 {
        "windowBackground"@
    } else if i == 85 {
        "windowFrame"@
    } else if i == 86 {
        "windowNoTitle"@
    } else if i == 87 {
        "windowIsFloating"@
    } else if i == 88 {
        "windowIsTranslucent"@
    } else if i == 89 {
        "windowContentOverlay"@
    } else if i == 90 {
        "windowTitleSize"@
    } else if i == 91 {
        "windowTitleStyle"@
    } else if i == 92 {
        "windowTitleBackgroundStyle"@
    } else if i == 93 {
        "alertDialogStyle"@
    } else if i == 94 {
        "panelBackground"@
    } else if i == 95 {
        "panelFullBackground"@
    } else if i == 96 {
        "panelColorForeground"@
    } else if i == 97 {
        "panelColorBackground"@
    } else if i == 98 {
        "panelTextAppearance"@
    } else if i == 99 {
        "scrollbarSize"@
    } else {
        Seq::empty()
    }
}

/// Entries 100 to 199 of the attribute-name table.
pub open spec fn spec_resource_name_1(i: int) -> Seq<char> {
    if i == 100 {
        "scrollbarThumbHorizontal"@
    } else if i == 101 {
        "scrollbarThumbVertical"@
    } else if i == 102 {
        "scrollbarTrackHorizontal"@
    } else if i == 103 {
        "scrollbarTrackVertical"@
    } else if i == 104 {
        "scrollbarAlwaysDrawHorizontalTrack"@
    } else if i == 105 {
        "scrollbarAlwaysDrawVerticalTrack"@
    } else if i == 106 {
        "absListViewStyle"@
    } else if i == 107 {
        "autoCompleteTextViewStyle"@
    } else if i == 108 {
        "checkboxStyle"@
    } else if i == 109 {
        "dropDownListViewStyle"@
    } else if i == 110 {
        "editTextStyle"@
    } else if i == 111 {
        "expandableListViewStyle"@
    } else if i == 112 {
        "galleryStyle"@
    } else if i == 113 {
        "gridViewStyle"@
    } else if i == 114 {
        "imageButtonStyle"@
    } else if i == 115 {
        "imageWellStyle"@
    } else if i == 116 {
        "listViewStyle"@
    } else if i == 117 {
        "listViewWhiteStyle"@
    } else if i == 118 {
        "popupWindowStyle"@
    } else if i == 119 {
        "progressBarStyle"@
    } else if i == 120 {
        "progressBarStyleHorizontal"@
    } else if i == 121 {
        "progressBarStyleSmall"@
    } else if i == 122 {
        "progressBarStyleLarge"@
    } else if i == 123 {
        "seekBarStyle"@
    } else if i == 124 {
        "ratingBarStyle"@
    } else if i == 125 {
        "ratingBarStyleSmall"@
    } else if i == 126 {
        "radioButtonStyle"@
    } else if i == 127 {
        "scrollbarStyle"@
    } else if i == 128 {
        "scrollViewStyle"@
    } else if i == 129 {
        "spinnerStyle"@
    } else if i == 130 {
        "starStyle"@
    } else if i == 131 {
        "tabWidgetStyle"@
    } else if i == 132 {
        "textViewStyle"@
    } else if i == 133 {
        "webViewStyle"@
    } else if i == 134 {
        "dropDownItemStyle"@
    } else if i == 135 {
        "spinnerDropDownItemStyle"@
    } else if i == 136 {
        "dropDownHintAppearance"@
    } else if i == 137 {
        "spinnerItemStyle"@
    } else if i == 138 {
        "mapViewStyle"@
    } else if i == 139 {
        "preferenceScreenStyle"@
    } else if i == 140 {
        "preferenceCategoryStyle"@
    } else if i == 141 {
        "preferenceInformationStyle"@
    } else if i == 142 {
        "preferenceStyle"@
    } else if i == 143 {
        "checkBoxPreferenceStyle"@
    } else if i == 144 {
        "yesNoPreferenceStyle"@
    } else if i == 145 {
        "dialogPreferenceStyle"@
    } else if i == 146 {
        "editTextPreferenceStyle"@
    } else if i == 147 {
        "ringtonePreferenceStyle"@
    } else if i == 148 {
        "preferenceLayoutChild"@
    } else if i == 149 {
        "textSize"@
    } else if i == 150 {
        "typeface"@
    } else if i == 151 {
        "textStyle"@
    } else if i == 152 {
        "textColor"@
    } else if i == 153 {
        "textColorHighlight"@
    } else if i == 154 {
        "textColorHint"@
    } else if i == 155 {
        "textColorLink"@
    } else if i == 156 {
        "state_focused"@
    } else if i == 157 {
        "state_window_focused"@
    } else if i == 158 {
        "state_enabled"@
    } else if i == 159 {
        "state_checkable"@
    } else if i == 160 {
        "state_checked"@
    } else if i == 161 {
        "state_selected"@
    } else if i == 162 {
        "state_active"@
    } else if i == 163 {
        "state_single"@
    } else if i == 164 {
        "state_first"@
    } else if i == 165 {
        "state_middle"@
    } else if i == 166 {
        "state_last"@
    } else if i == 167 {
        "state_pressed"@
    } else if i == 168 {
        "state_expanded"@
    } else if i == 169 {
        "state_empty"@
    } else if i == 170 {
        "state_above_anchor"@
    } else if i == 171 {
        "ellipsize"@
    } else if i == 172 {
        "x"@
    } else if i == 173 {
        "y"@
    } else if i == 174 {
        "windowAnimationStyle"@
    } else if i == 175 {
        "gravity"@
    } else if i == 176 {
        "autoLink"@
    } else if i == 177 {
        "linksClickable"@
    } else if i == 178 {
        "entries"@
    } else if i == 179 {
        "layout_gravity"@
    } else if i == 180 {
        "windowEnterAnimation"@
    } else if i == 181 {
        "windowExitAnimation"@
    } else if i == 182 {
        "windowShowAnimation"@
    } else if i == 183 {
        "windowHideAnimation"@
    } else if i == 184 {
        "activityOpenEnterAnimation"@
    } else if i == 185 {
        "activityOpenExitAnimation"@
    } else if i == 186 {
        "activityCloseEnterAnimation"@
    } else if i == 187 {
        "activityCloseExitAnimation"@
    } else if i == 188 {
        "taskOpenEnterAnimation"@
    } else if i == 189 {
        "taskOpenExitAnimation"@
    } else if i == 190 {
        "taskCloseEnterAnimation"@
    } else if i == 191 {
        "taskCloseExitAnimation"@
    } else if i == 192 {
        "taskToFrontEnterAnimation"@
    } else if i == 193 {
        "taskToFrontExitAnimation"@
    } else if i == 194 {
        "taskToBackEnterAnimation"@
    } else if i == 195 {
        "taskToBackExitAnimation"@
    } else if i == 196 {
        "orientation"@
    } else if i == 197 {
        "keycode"@
    } else if i == 198 {
        "fullDark"@
    } else if i == 199 {
        "topDark"@
    } else {
        Seq::empty()
    }
}

/// Entries 200 to 299 of the attribute-name table.
pub open spec fn spec_resource_name_2(i: int) -> Seq<char> {
    if i == 200 {
        "centerDark"@
    } else if i == 201 {
        "bottomDark"@
    } else if i == 202 {
        "fullBright"@
    } else if i == 203 {
        "topBright"@
    } else if i == 204 {
        "centerBright"@
    } else if i == 205 {
        "bottomBright"@
    } else if i == 206 {
        "bottomMedium"@
    } else if i == 207 {
        "centerMedium"@
    } else if i == 208 {
        "id"@
    } else if i == 209 {
        "tag"@
    } else if i == 210 {
        "scrollX"@
    } else if i == 211 {
        "scrollY"@
    } else if i == 212 {
        "background"@
    } else if i == 213 {
        "padding"@
    } else if i == 214 {
        "paddingLeft"@
    } else if i == 215 {
        "paddingTop"@
    } else if i == 216 {
        "paddingRight"@
    } else if i == 217 {
        "paddingBottom"@
    } else if i == 218 {
        "focusable"@
    } else if i == 219 {
        "focusableInTouchMode"@
    } else if i == 220 {
        "visibility"@
    } else if i == 221 {
        "fitsSystemWindows"@
    } else if i == 222 {
        "scrollbars"@
    } else if i == 223 {
        "fadingEdge"@
    } else if i == 224 {
        "fadingEdgeLength"@
    } else if i == 225 {
        "nextFocusLeft"@
    } else if i == 226 {
        "nextFocusRight"@
    } else if i == 227 {
        "nextFocusUp"@
    } else if i == 228 {
        "nextFocusDown"@
    } else if i == 229 {
        "clickable"@
    } else if i == 230 {
        "longClickable"@
    } else if i == 231 {
        "saveEnabled"@
    } else if i == 232 {
        "drawingCacheQuality"@
    } else if i == 233 {
        "duplicateParentState"@
    } else if i == 234 {
        "clipChildren"@
    } else if i == 235 {
        "clipToPadding"@
    } else if i == 236 {
        "layoutAnimation"@
    } else if i == 237 {
        "animationCache"@
    } else if i == 238 {
        "persistentDrawingCache"@
    } else if i == 239 {
        "alwaysDrawnWithCache"@
    } else if i == 240 {
        "addStatesFromChildren"@
    } else if i == 241 {
        "descendantFocusability"@
    } else if i == 242 {
        "layout"@
    } else if i == 243 {
        "inflatedId"@
    } else if i == 244 {
        "layout_width"@
    } else if i == 245 {
        "layout_height"@
    } else if i == 246 {
        "layout_margin"@
    } else if i == 247 {
        "layout_marginLeft"@
    } else if i == 248 {
        "layout_marginTop"@
    } else if i == 249 {
        "layout_marginRight"@
    } else if i == 250 {
        "layout_marginBottom"@
    } else if i == 251 {
        "listSelector"@
    } else if i == 252 {
        "drawSelectorOnTop"@
    } else if i == 253 {
        "stackFromBottom"@
    } else if i == 254 {
        "scrollingCache"@
    } else if i == 255 {
        "textFilterEnabled"@
    } else if i == 256 {
        "transcriptMode"@
    } else if i == 257 {
        "cacheColorHint"@
    } else if i == 258 {
        "dial"@
    } else if i == 259 {
        "hand_hour"@
    } else if i == 260 {
        "hand_minute"@
    } else if i == 261 {
        "format"@
    } else if i == 262 {
        "checked"@
    } else if i == 263 {
        "button"@
    } else if i == 264 {
        "checkMark"@
    } else if i == 265 {
        "foreground"@
    } else if i == 266 {
        "measureAllChildren"@
    } else if i == 267 {
        "groupIndicator"@
    } else if i == 268 {
        "childIndicator"@
    } else if i == 269 {
        "indicatorLeft"@
    } else if i == 270 {
        "indicatorRight"@
    } else if i == 271 {
        "childIndicatorLeft"@
    } else if i == 272 {
        "childIndicatorRight"@
    } else if i == 273 {
        "childDivider"@
    } else if i == 274 {
        "animationDuration"@
    } else if i == 275 {
        "spacing"@
    } else if i == 276 {
        "horizontalSpacing"@
    } else if i == 277 {
        "verticalSpacing"@
    } else if i == 278 {
        "stretchMode"@
    } else if i == 279 {
        "columnWidth"@
    } else if i == 280 {
        "numColumns"@
    } else if i == 281 {
        "src"@
    } else if i == 282 {
        "antialias"@
    } else if i == 283 {
        "filter"@
    } else if i == 284 {
        "dither"@
    } else if i == 285 {
        "scaleType"@
    } else if i == 286 {
        "adjustViewBounds"@
    } else if i == 287 {
        "maxWidth"@
    } else if i == 288 {
        "maxHeight"@
    } else if i == 289 {
        "tint"@
    } else if i == 290 {
        "baselineAlignBottom"@
    } else if i == 291 {
        "cropToPadding"@
    } else if i == 292 {
        "textOn"@
    } else if i == 293 {
        "textOff"@
    } else if i == 294 {
        "baselineAligned"@
    } else if i == 295 {
        "baselineAlignedChildIndex"@
    } else if i == 296 {
        "weightSum"@
    } else if i == 297 {
        "divider"@
    } else if i == 298 {
        "dividerHeight"@
    } else if i == 299 {
        "choiceMode"@
    } else {
        Seq::empty()
    }
}

/// Entries 300 to 399 of the attribute-name table.
pub open spec fn spec_resource_name_3(i: int) -> Seq<char> {
    if i == 300 {
        "itemTextAppearance"@
    } else if i == 301 {
        "horizontalDivider"@
    } else if i == 302 {
        "verticalDivider"@
    } else if i == 303 {
        "headerBackground"@
    } else if i == 304 {
        "itemBackground"@
    } else if i == 305 {
        "itemIconDisabledAlpha"@
    } else if i == 306 {
        "rowHeight"@
    } else if i == 307 {
        "maxRows"@
    } else if i == 308 {
        "maxItemsPerRow"@
    } else if i == 309 {
        "moreIcon"@
    } else if i == 310 {
        "max"@
    } else if i == 311 {
        "progress"@
    } else if i == 312 {
        "secondaryProgress"@
    } else if i == 313 {
        "indeterminate"@
    } else if i == 314 {
        "indeterminateOnly"@
    } else if i == 315 {
        "indeterminateDrawable"@
    } else if i == 316 {
        "progressDrawable"@
    } else if i == 317 {
        "indeterminateDuration"@
    } else if i == 318 {
        "indeterminateBehavior"@
    } else if i == 319 {
        "minWidth"@
    } else if i == 320 {
        "minHeight"@
    } else if i == 321 {
        "interpolator"@
    } else if i == 322 {
        "thumb"@
    } else if i == 323 {
        "thumbOffset"@
    } else if i == 324 {
        "numStars"@
    } else if i == 325 {
        "rating"@
    } else if i == 326 {
        "stepSize"@
    } else if i == 327 {
        "isIndicator"@
    } else if i == 328 {
        "checkedButton"@
    } else if i == 329 {
        "stretchColumns"@
    } else if i == 330 {
        "shrinkColumns"@
    } else if i == 331 {
        "collapseColumns"@
    } else if i == 332 {
        "layout_column"@
    } else if i == 333 {
        "layout_span"@
    } else if i == 334 {
        "bufferType"@
    } else if i == 335 {
        "text"@
    } else if i == 336 {
        "hint"@
    } else if i == 337 {
        "textScaleX"@
    } else if i == 338 {
        "cursorVisible"@
    } else if i == 339 {
        "maxLines"@
    } else if i == 340 {
        "lines"@
    } else if i == 341 {
        "height"@
    } else if i == 342 {
        "minLines"@
    } else if i == 343 {
        "maxEms"@
    } else if i == 344 {
        "ems"@
    } else if i == 345 {
        "width"@
    } else if i == 346 {
        "minEms"@
    } else if i == 347 {
        "scrollHorizontally"@
    } else if i == 348 {
        "password"@
    } else if i == 349 {
        "singleLine"@
    } else if i == 350 {
        "selectAllOnFocus"@
    } else if i == 351 {
        "includeFontPadding"@
    } else if i == 352 {
        "maxLength"@
    } else if i == 353 {
        "shadowColor"@
    } else if i == 354 {
        "shadowDx"@
    } else if i == 355 {
        "shadowDy"@
    } else if i == 356 {
        "shadowRadius"@
    } else if i == 357 {
        "numeric"@
    } else if i == 358 {
        "digits"@
    } else if i == 359 {
        "phoneNumber"@
    } else if i == 360 {
        "inputMethod"@
    } else if i == 361 {
        "capitalize"@
    } else if i == 362 {
        "autoText"@
    } else if i == 363 {
        "editable"@
    } else if i == 364 {
        "freezesText"@
    } else if i == 365 {
        "drawableTop"@
    } else if i == 366 {
        "drawableBottom"@
    } else if i == 367 {
        "drawableLeft"@
    } else if i == 368 {
        "drawableRight"@
    } else if i == 369 {
        "drawablePadding"@
    } else if i == 370 {
        "completionHint"@
    } else if i == 371 {
        "completionHintView"@
    } else if i == 372 {
        "completionThreshold"@
    } else if i == 373 {
        "dropDownSelector"@
    } else if i == 374 {
        "popupBackground"@
    } else if i == 375 {
        "inAnimation"@
    } else if i == 376 {
        "outAnimation"@
    } else if i == 377 {
        "flipInterval"@
    } else if i == 378 {
        "fillViewport"@
    } else if i == 379 {
        "prompt"@
    } else if i == 380 {
        "startYear"@
    } else if i == 381 {
        "endYear"@
    } else if i == 382 {
        "mode"@
    } else if i == 383 {
        "layout_x"@
    } else if i == 384 {
        "layout_y"@
    } else if i == 385 {
        "layout_weight"@
    } else if i == 386 {
        "layout_toLeftOf"@
    } else if i == 387 {
        "layout_toRightOf"@
    } else if i == 388 {
        "layout_above"@
    } else if i == 389 {
        "layout_below"@
    } else if i == 390 {
        "layout_alignBaseline"@
    } else if i == 391 {
        "layout_alignLeft"@
    } else if i == 392 {
        "layout_alignTop"@
    } else if i == 393 {
        "layout_alignRight"@
    } else if i == 394 {
        "layout_alignBottom"@
    } else if i == 395 {
        "layout_alignParentLeft"@
    } else if i == 396 {
        "layout_alignParentTop"@
    } else if i == 397 {
        "layout_alignParentRight"@
    } else if i == 398 {
        "layout_alignParentBottom"@
    } else if i == 399 {
        "layout_centerInParent"@
    } else {
        Seq::empty()
    }
}

/// Entries 400 to 499 of the attribute-name table.
pub open spec fn spec_resource_name_4(i: int) -> Seq<char> {
    if i == 400 {
        "layout_centerHorizontal"@
    } else if i == 401 {
        "layout_centerVertical"@
    } else if i == 402 {
        "layout_alignWithParentIfMissing"@
    } else if i == 403 {
        "layout_scale"@
    } else if i == 404 {
        "visible"@
    } else if i == 405 {
        "variablePadding"@
    } else if i == 406 {
        "constantSize"@
    } else if i == 407 {
        "oneshot"@
    } else if i == 408 {
        "duration"@
    } else if i == 409 {
        "drawable"@
    } else if i == 410 {
        "shape"@
    } else if i == 411 {
        "innerRadiusRatio"@
    } else if i == 412 {
        "thicknessRatio"@
    } else if i == 413 {
        "startColor"@
    } else if i == 414 {
        "endColor"@
    } else if i == 415 {
        "useLevel"@
    } else if i == 416 {
        "angle"@
    } else if i == 417 {
        "type"@
    } else if i == 418 {
        "centerX"@
    } else if i == 419 {
        "centerY"@
    } else if i == 420 {
        "gradientRadius"@
    } else if i == 421 {
        "color"@
    } else if i == 422 {
        "dashWidth"@
    } else if i == 423 {
        "dashGap"@
    } else if i == 424 {
        "radius"@
    } else if i == 425 {
        "topLeftRadius"@
    } else if i == 426 {
        "topRightRadius"@
    } else if i == 427 {
        "bottomLeftRadius"@
    } else if i == 428 {
        "bottomRightRadius"@
    } else if i == 429 {
        "left"@
    } else if i == 430 {
        "top"@
    } else if i == 431 {
        "right"@
    } else if i == 432 {
        "bottom"@
    } else if i == 433 {
        "minLevel"@
    } else if i == 434 {
        "maxLevel"@
    } else if i == 435 {
        "fromDegrees"@
    } else if i == 436 {
        "toDegrees"@
    } else if i == 437 {
        "pivotX"@
    } else if i == 438 {
        "pivotY"@
    } else if i == 439 {
        "insetLeft"@
    } else if i == 440 {
        "insetRight"@
    } else if i == 441 {
        "insetTop"@
    } else if i == 442 {
        "insetBottom"@
    } else if i == 443 {
        "shareInterpolator"@
    } else if i == 444 {
        "fillBefore"@
    } else if i == 445 {
        "fillAfter"@
    } else if i == 446 {
        "startOffset"@
    } else if i == 447 {
        "repeatCount"@
    } else if i == 448 {
        "repeatMode"@
    } else if i == 449 {
        "zAdjustment"@
    } else if i == 450 {
        "fromXScale"@
    } else if i == 451 {
        "toXScale"@
    } else if i == 452 {
        "fromYScale"@
    } else if i == 453 {
        "toYScale"@
    } else if i == 454 {
        "fromXDelta"@
    } else if i == 455 {
        "toXDelta"@
    } else if i == 456 {
        "fromYDelta"@
    } else if i == 457 {
        "toYDelta"@
    } else if i == 458 {
        "fromAlpha"@
    } else if i == 459 {
        "toAlpha"@
    } else if i == 460 {
        "delay"@
    } else if i == 461 {
        "animation"@
    } else if i == 462 {
        "animationOrder"@
    } else if i == 463 {
        "columnDelay"@
    } else if i == 464 {
        "rowDelay"@
    } else if i == 465 {
        "direction"@
    } else if i == 466 {
        "directionPriority"@
    } else if i == 467 {
        "factor"@
    } else if i == 468 {
        "cycles"@
    } else if i == 469 {
        "searchMode"@
    } else if i == 470 {
        "searchSuggestAuthority"@
    } else if i == 471 {
        "searchSuggestPath"@
    } else if i == 472 {
        "searchSuggestSelection"@
    } else if i == 473 {
        "searchSuggestIntentAction"@
    } else if i == 474 {
        "searchSuggestIntentData"@
    } else if i == 475 {
        "queryActionMsg"@
    } else if i == 476 {
        "suggestActionMsg"@
    } else if i == 477 {
        "suggestActionMsgColumn"@
    } else if i == 478 {
        "menuCategory"@
    } else if i == 479 {
        "orderInCategory"@
    } else if i == 480 {
        "checkableBehavior"@
    } else if i == 481 {
        "title"@
    } else if i == 482 {
        "titleCondensed"@
    } else if i == 483 {
        "alphabeticShortcut"@
    } else if i == 484 {
        "numericShortcut"@
    } else if i == 485 {
        "checkable"@
    } else if i == 486 {
        "selectable"@
    } else if i == 487 {
        "orderingFromXml"@
    } else if i == 488 {
        "key"@
    } else if i == 489 {
        "summary"@
    } else if i == 490 {
        "order"@
    } else if i == 491 {
        "widgetLayout"@
    } else if i == 492 {
        "dependency"@
    } else if i == 493 {
        "defaultValue"@
    } else if i == 494 {
        "shouldDisableView"@
    } else if i == 495 {
        "summaryOn"@
    } else if i == 496 {
        "summaryOff"@
    } else if i == 497 {
        "disableDependentsState"@
    } else if i == 498 {
        "dialogTitle"@
    } else if i == 499 {
        "dialogMessage"@
    } else {
        Seq::empty()
    }
}

/// Entries 500 to 599 of the attribute-name table.
pub open spec fn spec_resource_name_5(i: int) -> Seq<char> {
    if i == 500 {
        "dialogIcon"@
    } else if i == 501 {
        "positiveButtonText"@
    } else if i == 502 {
        "negativeButtonText"@
    } else if i == 503 {
        "dialogLayout"@
    } else if i == 504 {
        "entryValues"@
    } else if i == 505 {
        "ringtoneType"@
    } else if i == 506 {
        "showDefault"@
    } else if i == 507 {
        "showSilent"@
    } else if i == 508 {
        "scaleWidth"@
    } else if i == 509 {
        "scaleHeight"@
    } else if i == 510 {
        "scaleGravity"@
    } else if i == 511 {
        "ignoreGravity"@
    } else if i == 512 {
        "foregroundGravity"@
    } else if i == 513 {
        "tileMode"@
    } else if i == 514 {
        "targetActivity"@
    } else if i == 515 {
        "alwaysRetainTaskState"@
    } else if i == 516 {
        "allowTaskReparenting"@
    } else if i == 517 {
        "searchButtonText"@
    } else if i == 518 {
        "colorForegroundInverse"@
    } else if i == 519 {
        "textAppearanceButton"@
    } else if i == 520 {
        "listSeparatorTextViewStyle"@
    } else if i == 521 {
        "streamType"@
    } else if i == 522 {
        "clipOrientation"@
    } else if i == 523 {
        "centerColor"@
    } else if i == 524 {
        "minSdkVersion"@
    } else if i == 525 {
        "windowFullscreen"@
    } else if i == 526 {
        "unselectedAlpha"@
    } else if i == 527 {
        "progressBarStyleSmallTitle"@
    } else if i == 528 {
        "ratingBarStyleIndicator"@
    } else if i == 529 {
        "apiKey"@
    } else if i == 530 {
        "textColorTertiary"@
    } else if i == 531 {
        "textColorTertiaryInverse"@
    } else if i == 532 {
        "listDivider"@
    } else if i == 533 {
        "soundEffectsEnabled"@
    } else if i == 534 {
        "keepScreenOn"@
    } else if i == 535 {
        "lineSpacingExtra"@
    } else if i == 536 {
        "lineSpacingMultiplier"@
    } else if i == 537 {
        "listChoiceIndicatorSingle"@
    } else if i == 538 {
        "listChoiceIndicatorMultiple"@
    } else if i == 539 {
        "versionCode"@
    } else if i == 540 {
        "versionName"@
    } else if i == 541 {
        "marqueeRepeatLimit"@
    } else if i == 542 {
        "windowNoDisplay"@
    } else if i == 543 {
        "backgroundDimEnabled"@
    } else if i == 544 {
        "inputType"@
    } else if i == 545 {
        "isDefault"@
    } else if i == 546 {
        "windowDisablePreview"@
    } else if i == 547 {
        "privateImeOptions"@
    } else if i == 548 {
        "editorExtras"@
    } else if i == 549 {
        "settingsActivity"@
    } else if i == 550 {
        "fastScrollEnabled"@
    } else if i == 551 {
        "reqTouchScreen"@
    } else if i == 552 {
        "reqKeyboardType"@
    } else if i == 553 {
        "reqHardKeyboard"@
    } else if i == 554 {
        "reqNavigation"@
    } else if i == 555 {
        "windowSoftInputMode"@
    } else if i == 556 {
        "imeFullscreenBackground"@
    } else if i == 557 {
        "noHistory"@
    } else if i == 558 {
        "headerDividersEnabled"@
    } else if i == 559 {
        "footerDividersEnabled"@
    } else if i == 560 {
        "candidatesTextStyleSpans"@
    } else if i == 561 {
        "smoothScrollbar"@
    } else if i == 562 {
        "reqFiveWayNav"@
    } else if i == 563 {
        "keyBackground"@
    } else if i == 564 {
        "keyTextSize"@
    } else if i == 565 {
        "labelTextSize"@
    } else if i == 566 {
        "keyTextColor"@
    } else if i == 567 {
        "keyPreviewLayout"@
    } else if i == 568 {
        "keyPreviewOffset"@
    } else if i == 569 {
        "keyPreviewHeight"@
    } else if i == 570 {
        "verticalCorrection"@
    } else if i == 571 {
        "popupLayout"@
    } else if i == 572 {
        "state_long_pressable"@
    } else if i == 573 {
        "keyWidth"@
    } else if i == 574 {
        "keyHeight"@
    } else if i == 575 {
        "horizontalGap"@
    } else if i == 576 {
        "verticalGap"@
    } else if i == 577 {
        "rowEdgeFlags"@
    } else if i == 578 {
        "codes"@
    } else if i == 579 {
        "popupKeyboard"@
    } else if i == 580 {
        "popupCharacters"@
    } else if i == 581 {
        "keyEdgeFlags"@
    } else if i == 582 {
        "isModifier"@
    } else if i == 583 {
        "isSticky"@
    } else if i == 584 {
        "isRepeatable"@
    } else if i == 585 {
        "iconPreview"@
    } else if i == 586 {
        "keyOutputText"@
    } else if i == 587 {
        "keyLabel"@
    } else if i == 588 {
        "keyIcon"@
    } else if i == 589 {
        "keyboardMode"@
    } else if i == 590 {
        "isScrollContainer"@
    } else if i == 591 {
        "fillEnabled"@
    } else if i == 592 {
        "updatePeriodMillis"@
    } else if i == 593 {
        "initialLayout"@
    } else if i == 594 {
        "voiceSearchMode"@
    } else if i == 595 {
        "voiceLanguageModel"@
    } else if i == 596 {
        "voicePromptText"@
    } else if i == 597 {
        "voiceLanguage"@
    } else if i == 598 {
        "voiceMaxResults"@
    } else if i == 599 {
        "bottomOffset"@
    } else {
        Seq::empty()
    }
}

/// Entries 600 to 699 of the attribute-name table.
pub open spec fn spec_resource_name_6(i: int) -> Seq<char> {
    if i == 600 {
        "topOffset"@
    } else if i == 601 {
        "allowSingleTap"@
    } else if i == 602 {
        "handle"@
    } else if i == 603 {
        "content"@
    } else if i == 604 {
        "animateOnClick"@
    } else if i == 605 {
        "configure"@
    } else if i == 606 {
        "hapticFeedbackEnabled"@
    } else if i == 607 {
        "innerRadius"@
    } else if i == 608 {
        "thickness"@
    } else if i == 609 {
        "sharedUserLabel"@
    } else if i == 610 {
        "dropDownWidth"@
    } else if i == 611 {
        "dropDownAnchor"@
    } else if i == 612 {
        "imeOptions"@
    } else if i == 613 {
        "imeActionLabel"@
    } else if i == 614 {
        "imeActionId"@
    } else if i == 615 {
        "UNKNOWN"@
    } else if i == 616 {
        "imeExtractEnterAnimation"@
    } else if i == 617 {
        "imeExtractExitAnimation"@
    } else if i == 618 {
        "tension"@
    } else if i == 619 {
        "extraTension"@
    } else if i == 620 {
        "anyDensity"@
    } else if i == 621 {
        "searchSuggestThreshold"@
    } else if i == 622 {
        "includeInGlobalSearch"@
    } else if i == 623 {
        "onClick"@
    } else if i == 624 {
        "targetSdkVersion"@
    } else if i == 625 {
        "maxSdkVersion"@
    } else if i == 626 {
        "testOnly"@
    } else if i == 627 {
        "contentDescription"@
    } else if i == 628 {
        "gestureStrokeWidth"@
    } else if i == 629 {
        "gestureColor"@
    } else if i == 630 {
        "uncertainGestureColor"@
    } else if i == 631 {
        "fadeOffset"@
    } else if i == 632 {
        "fadeDuration"@
    } else if i == 633 {
        "gestureStrokeType"@
    } else if i == 634 {
        "gestureStrokeLengthThreshold"@
    } else if i == 635 {
        "gestureStrokeSquarenessThreshold"@
    } else if i == 636 {
        "gestureStrokeAngleThreshold"@
    } else if i == 637 {
        "eventsInterceptionEnabled"@
    } else if i == 638 {
        "fadeEnabled"@
    } else if i == 639 {
        "backupAgent"@
    } else if i == 640 {
        "allowBackup"@
    } else if i == 641 {
        "glEsVersion"@
    } else if i == 642 {
        "queryAfterZeroResults"@
    } else if i == 643 {
        "dropDownHeight"@
    } else if i == 644 {
        "smallScreens"@
    } else if i == 645 {
        "normalScreens"@
    } else if i == 646 {
        "largeScreens"@
    } else if i == 647 {
        "progressBarStyleInverse"@
    } else if i == 648 {
        "progressBarStyleSmallInverse"@
    } else if i == 649 {
        "progressBarStyleLargeInverse"@
    } else if i == 650 {
        "searchSettingsDescription"@
    } else if i == 651 {
        "textColorPrimaryInverseDisableOnly"@
    } else if i == 652 {
        "autoUrlDetect"@
    } else if i == 653 {
        "resizeable"@
    } else if i == 654 {
        "required"@
    } else if i == 655 {
        "accountType"@
    } else if i == 656 {
        "contentAuthority"@
    } else if i == 657 {
        "userVisible"@
    } else if i == 658 {
        "windowShowWallpaper"@
    } else if i == 659 {
        "wallpaperOpenEnterAnimation"@
    } else if i == 660 {
        "wallpaperOpenExitAnimation"@
    } else if i == 661 {
        "wallpaperCloseEnterAnimation"@
    } else if i == 662 {
        "wallpaperCloseExitAnimation"@
    } else if i == 663 {
        "wallpaperIntraOpenEnterAnimation"@
    } else if i == 664 {
        "wallpaperIntraOpenExitAnimation"@
    } else if i == 665 {
        "wallpaperIntraCloseEnterAnimation"@
    } else if i == 666 {
        "wallpaperIntraCloseExitAnimation"@
    } else if i == 667 {
        "supportsUploading"@
    } else if i == 668 {
        "killAfterRestore"@
    } else if i == 669 {
        "restoreNeedsApplication"@
    } else if i == 670 {
        "smallIcon"@
    } else if i == 671 {
        "accountPreferences"@
    } else if i == 672 {
        "textAppearanceSearchResultSubtitle"@
    } else if i == 673 {
        "textAppearanceSearchResultTitle"@
    } else if i == 674 {
        "summaryColumn"@
    } else if i == 675 {
        "detailColumn"@
    } else if i == 676 {
        "detailSocialSummary"@
    } else if i == 677 {
        "thumbnail"@
    } else if i == 678 {
        "detachWallpaper"@
    } else if i == 679 {
        "finishOnCloseSystemDialogs"@
    } else if i == 680 {
        "scrollbarFadeDuration"@
    } else if i == 681 {
        "scrollbarDefaultDelayBeforeFade"@
    } else if i == 682 {
        "fadeScrollbars"@
    } else if i == 683 {
        "colorBackgroundCacheHint"@
    } else if i == 684 {
        "dropDownHorizontalOffset"@
    } else if i == 685 {
        "dropDownVerticalOffset"@
    } else if i == 686 {
        "quickContactBadgeStyleWindowSmall"@
    } else if i == 687 {
        "quickContactBadgeStyleWindowMedium"@
    } else if i == 688 {
        "quickContactBadgeStyleWindowLarge"@
    } else if i == 689 {
        "quickContactBadgeStyleSmallWindowSmall"@
    } else if i == 690 {
        "quickContactBadgeStyleSmallWindowMedium"@
    } else if i == 691 {
        "quickContactBadgeStyleSmallWindowLarge"@
    } else if i == 692 {
        "author"@
    } else if i == 693 {
        "autoStart"@
    } else if i == 694 {
        "expandableListViewWhiteStyle"@
    } else if i == 695 {
        "installLocation"@
    } else if i == 696 {
        "vmSafeMode"@
    } else if i == 697 {
        "webTextViewStyle"@
    } else if i == 698 {
        "restoreAnyVersion"@
    } else if i == 699 {
        "tabStripLeft"@
    } else {
        Seq::empty()
    }
}

/// Entries 700 to 799 of the attribute-name table.
pub open spec fn spec_resource_name_7(i: int) -> Seq<char> {
    if i == 700 {
        "tabStripRight"@
    } else if i == 701 {
        "tabStripEnabled"@
    } else if i == 702 {
        "logo"@
    } else if i == 703 {
        "xlargeScreens"@
    } else if i == 704 {
        "immersive"@
    } else if i == 705 {
        "overScrollMode"@
    } else if i == 706 {
        "overScrollHeader"@
    } else if i == 707 {
        "overScrollFooter"@
    } else if i == 708 {
        "filterTouchesWhenObscured"@
    } else if i == 709 {
        "textSelectHandleLeft"@
    } else if i == 710 {
        "textSelectHandleRight"@
    } else if i == 711 {
        "textSelectHandle"@
    } else if i == 712 {
        "textSelectHandleWindowStyle"@
    } else if i == 713 {
        "popupAnimationStyle"@
    } else if i == 714 {
        "screenSize"@
    } else if i == 715 {
        "screenDensity"@
    } else if i == 716 {
        "allContactsName"@
    } else if i == 717 {
        "windowActionBar"@
    } else if i == 718 {
        "actionBarStyle"@
    } else if i == 719 {
        "navigationMode"@
    } else if i == 720 {
        "displayOptions"@
    } else if i == 721 {
        "subtitle"@
    } else if i == 722 {
        "customNavigationLayout"@
    } else if i == 723 {
        "hardwareAccelerated"@
    } else if i == 724 {
        "measureWithLargestChild"@
    } else if i == 725 {
        "animateFirstView"@
    } else if i == 726 {
        "dropDownSpinnerStyle"@
    } else if i == 727 {
        "actionDropDownStyle"@
    } else if i == 728 {
        "actionButtonStyle"@
    } else if i == 729 {
        "showAsAction"@
    } else if i == 730 {
        "previewImage"@
    } else if i == 731 {
        "actionModeBackground"@
    } else if i == 732 {
        "actionModeCloseDrawable"@
    } else if i == 733 {
        "windowActionModeOverlay"@
    } else if i == 734 {
        "valueFrom"@
    } else if i == 735 {
        "valueTo"@
    } else if i == 736 {
        "valueType"@
    } else if i == 737 {
        "propertyName"@
    } else if i == 738 {
        "ordering"@
    } else if i == 739 {
        "fragment"@
    } else if i == 740 {
        "windowActionBarOverlay"@
    } else if i == 741 {
        "fragmentOpenEnterAnimation"@
    } else if i == 742 {
        "fragmentOpenExitAnimation"@
    } else if i == 743 {
        "fragmentCloseEnterAnimation"@
    } else if i == 744 {
        "fragmentCloseExitAnimation"@
    } else if i == 745 {
        "fragmentFadeEnterAnimation"@
    } else if i == 746 {
        "fragmentFadeExitAnimation"@
    } else if i == 747 {
        "actionBarSize"@
    } else if i == 748 {
        "imeSubtypeLocale"@
    } else if i == 749 {
        "imeSubtypeMode"@
    } else if i == 750 {
        "imeSubtypeExtraValue"@
    } else if i == 751 {
        "splitMotionEvents"@
    } else if i == 752 {
        "listChoiceBackgroundIndicator"@
    } else if i == 753 {
        "spinnerMode"@
    } else if i == 754 {
        "animateLayoutChanges"@
    } else if i == 755 {
        "actionBarTabStyle"@
    } else if i == 756 {
        "actionBarTabBarStyle"@
    } else if i == 757 {
        "actionBarTabTextStyle"@
    } else if i == 758 {
        "actionOverflowButtonStyle"@
    } else if i == 759 {
        "actionModeCloseButtonStyle"@
    } else if i == 760 {
        "titleTextStyle"@
    } else if i == 761 {
        "subtitleTextStyle"@
    } else if i == 762 {
        "iconifiedByDefault"@
    } else if i == 763 {
        "actionLayout"@
    } else if i == 764 {
        "actionViewClass"@
    } else if i == 765 {
        "activatedBackgroundIndicator"@
    } else if i == 766 {
        "state_activated"@
    } else if i == 767 {
        "listPopupWindowStyle"@
    } else if i == 768 {
        "popupMenuStyle"@
    } else if i == 769 {
        "textAppearanceLargePopupMenu"@
    } else if i == 770 {
        "textAppearanceSmallPopupMenu"@
    } else if i == 771 {
        "breadCrumbTitle"@
    } else if i == 772 {
        "breadCrumbShortTitle"@
    } else if i == 773 {
        "listDividerAlertDialog"@
    } else if i == 774 {
        "textColorAlertDialogListItem"@
    } else if i == 775 {
        "loopViews"@
    } else if i == 776 {
        "dialogTheme"@
    } else if i == 777 {
        "alertDialogTheme"@
    } else if i == 778 {
        "dividerVertical"@
    } else if i == 779 {
        "homeAsUpIndicator"@
    } else if i == 780 {
        "enterFadeDuration"@
    } else if i == 781 {
        "exitFadeDuration"@
    } else if i == 782 {
        "selectableItemBackground"@
    } else if i == 783 {
        "autoAdvanceViewId"@
    } else if i == 784 {
        "useIntrinsicSizeAsMinimum"@
    } else if i == 785 {
        "actionModeCutDrawable"@
    } else if i == 786 {
        "actionModeCopyDrawable"@
    } else if i == 787 {
        "actionModePasteDrawable"@
    } else if i == 788 {
        "textEditPasteWindowLayout"@
    } else if i == 789 {
        "textEditNoPasteWindowLayout"@
    } else if i == 790 {
        "textIsSelectable"@
    } else if i == 791 {
        "windowEnableSplitTouch"@
    } else if i == 792 {
        "indeterminateProgressStyle"@
    } else if i == 793 {
        "progressBarPadding"@
    } else if i == 794 {
        "animationResolution"@
    } else if i == 795 {
        "state_accelerated"@
    } else if i == 796 {
        "baseline"@
    } else if i == 797 {
        "homeLayout"@
    } else if i == 798 {
        "opacity"@
    } else if i == 799 {
        "alpha"@
    } else {
        Seq::empty()
    }
}

/// Entries 800 to 899 of the attribute-name table.
pub open spec fn spec_resource_name_8(i: int) -> Seq<char> {
    if i == 800 {
        "transformPivotX"@
    } else if i == 801 {
        "transformPivotY"@
    } else if i == 802 {
        "translationX"@
    } else if i == 803 {
        "translationY"@
    } else if i == 804 {
        "scaleX"@
    } else if i == 805 {
        "scaleY"@
    } else if i == 806 {
        "rotation"@
    } else if i == 807 {
        "rotationX"@
    } else if i == 808 {
        "rotationY"@
    } else if i == 809 {
        "showDividers"@
    } else if i == 810 {
        "dividerPadding"@
    } else if i == 811 {
        "borderlessButtonStyle"@
    } else if i == 812 {
        "dividerHorizontal"@
    } else if i == 813 {
        "itemPadding"@
    } else if i == 814 {
        "buttonBarStyle"@
    } else if i == 815 {
        "buttonBarButtonStyle"@
    } else if i == 816 {
        "segmentedButtonStyle"@
    } else if i == 817 {
        "staticWallpaperPreview"@
    } else if i == 818 {
        "allowParallelSyncs"@
    } else if i == 819 {
        "isAlwaysSyncable"@
    } else if i == 820 {
        "verticalScrollbarPosition"@
    } else if i == 821 {
        "fastScrollAlwaysVisible"@
    } else if i == 822 {
        "fastScrollThumbDrawable"@
    } else if i == 823 {
        "fastScrollPreviewBackgroundLeft"@
    } else if i == 824 {
        "fastScrollPreviewBackgroundRight"@
    } else if i == 825 {
        "fastScrollTrackDrawable"@
    } else if i == 826 {
        "fastScrollOverlayPosition"@
    } else if i == 827 {
        "customTokens"@
    } else if i == 828 {
        "nextFocusForward"@
    } else if i == 829 {
        "firstDayOfWeek"@
    } else if i == 830 {
        "showWeekNumber"@
    } else if i == 831 {
        "minDate"@
    } else if i == 832 {
        "maxDate"@
    } else if i == 833 {
        "shownWeekCount"@
    } else if i == 834 {
        "selectedWeekBackgroundColor"@
    } else if i == 835 {
        "focusedMonthDateColor"@
    } else if i == 836 {
        "unfocusedMonthDateColor"@
    } else if i == 837 {
        "weekNumberColor"@
    } else if i == 838 {
        "weekSeparatorLineColor"@
    } else if i == 839 {
        "selectedDateVerticalBar"@
    } else if i == 840 {
        "weekDayTextAppearance"@
    } else if i == 841 {
        "dateTextAppearance"@
    } else if i == 842 {
        "UNKNOWN"@
    } else if i == 843 {
        "spinnersShown"@
    } else if i == 844 {
        "calendarViewShown"@
    } else if i == 845 {
        "state_multiline"@
    } else if i == 846 {
        "detailsElementBackground"@
    } else if i == 847 {
        "textColorHighlightInverse"@
    } else if i == 848 {
        "textColorLinkInverse"@
    } else if i == 849 {
        "editTextColor"@
    } else if i == 850 {
        "editTextBackground"@
    } else if i == 851 {
        "horizontalScrollViewStyle"@
    } else if i == 852 {
        "layerType"@
    } else if i == 853 {
        "alertDialogIcon"@
    } else if i == 854 {
        "windowMinWidthMajor"@
    } else if i == 855 {
        "windowMinWidthMinor"@
    } else if i == 856 {
        "queryHint"@
    } else if i == 857 {
        "fastScrollTextColor"@
    } else if i == 858 {
        "largeHeap"@
    } else if i == 859 {
        "windowCloseOnTouchOutside"@
    } else if i == 860 {
        "datePickerStyle"@
    } else if i == 861 {
        "calendarViewStyle"@
    } else if i == 862 {
        "textEditSidePasteWindowLayout"@
    } else if i == 863 {
        "textEditSideNoPasteWindowLayout"@
    } else if i == 864 {
        "actionMenuTextAppearance"@
    } else if i == 865 {
        "actionMenuTextColor"@
    } else if i == 866 {
        "textCursorDrawable"@
    } else if i == 867 {
        "resizeMode"@
    } else if i == 868 {
        "requiresSmallestWidthDp"@
    } else if i == 869 {
        "compatibleWidthLimitDp"@
    } else if i == 870 {
        "largestWidthLimitDp"@
    } else if i == 871 {
        "state_hovered"@
    } else if i == 872 {
        "state_drag_can_accept"@
    } else if i == 873 {
        "state_drag_hovered"@
    } else if i == 874 {
        "stopWithTask"@
    } else if i == 875 {
        "switchTextOn"@
    } else if i == 876 {
        "switchTextOff"@
    } else if i == 877 {
        "switchPreferenceStyle"@
    } else if i == 878 {
        "switchTextAppearance"@
    } else if i == 879 {
        "track"@
    } else if i == 880 {
        "switchMinWidth"@
    } else if i == 881 {
        "switchPadding"@
    } else if i == 882 {
        "thumbTextPadding"@
    } else if i == 883 {
        "textSuggestionsWindowStyle"@
    } else if i == 884 {
        "textEditSuggestionItemLayout"@
    } else if i == 885 {
        "rowCount"@
    } else if i == 886 {
        "rowOrderPreserved"@
    } else if i == 887 {
        "columnCount"@
    } else if i == 888 {
        "columnOrderPreserved"@
    } else if i == 889 {
        "useDefaultMargins"@
    } else if i == 890 {
        "alignmentMode"@
    } else if i == 891 {
        "layout_row"@
    } else if i == 892 {
        "layout_rowSpan"@
    } else if i == 893 {
        "layout_columnSpan"@
    } else if i == 894 {
        "actionModeSelectAllDrawable"@
    } else if i == 895 {
        "isAuxiliary"@
    } else if i == 896 {
        "accessibilityEventTypes"@
    } else if i == 897 {
        "packageNames"@
    } else if i == 898 {
        "accessibilityFeedbackType"@
    } else if i == 899 {
        "notificationTimeout"@
    } else {
        Seq::empty()
    }
}

/// Entries 900 to 999 of the attribute-name table.
pub open spec fn spec_resource_name_9(i: int) -> Seq<char> {
    if i == 900 {
        "accessibilityFlags"@
    } else if i == 901 {
        "canRetrieveWindowContent"@
    } else if i == 902 {
        "listPreferredItemHeightLarge"@
    } else if i == 903 {
        "listPreferredItemHeightSmall"@
    } else if i == 904 {
        "actionBarSplitStyle"@
    } else if i == 905 {
        "actionProviderClass"@
    } else if i == 906 {
        "backgroundStacked"@
    } else if i == 907 {
        "backgroundSplit"@
    } else if i == 908 {
        "textAllCaps"@
    } else if i == 909 {
        "colorPressedHighlight"@
    } else if i == 910 {
        "colorLongPressedHighlight"@
    } else if i == 911 {
        "colorFocusedHighlight"@
    } else if i == 912 {
        "colorActivatedHighlight"@
    } else if i == 913 {
        "colorMultiSelectHighlight"@
    } else if i == 914 {
        "drawableStart"@
    } else if i == 915 {
        "drawableEnd"@
    } else if i == 916 {
        "actionModeStyle"@
    } else if i == 917 {
        "minResizeWidth"@
    } else if i == 918 {
        "minResizeHeight"@
    } else if i == 919 {
        "actionBarWidgetTheme"@
    } else if i == 920 {
        "uiOptions"@
    } else if i == 921 {
        "subtypeLocale"@
    } else if i == 922 {
        "subtypeExtraValue"@
    } else if i == 923 {
        "actionBarDivider"@
    } else if i == 924 {
        "actionBarItemBackground"@
    } else if i == 925 {
        "actionModeSplitBackground"@
    } else if i == 926 {
        "textAppearanceListItem"@
    } else if i == 927 {
        "textAppearanceListItemSmall"@
    } else if i == 928 {
        "targetDescriptions"@
    } else if i == 929 {
        "directionDescriptions"@
    } else if i == 930 {
        "overridesImplicitlyEnabledSubtype"@
    } else if i == 931 {
        "listPreferredItemPaddingLeft"@
    } else if i == 932 {
        "listPreferredItemPaddingRight"@
    } else if i == 933 {
        "requiresFadingEdge"@
    } else if i == 934 {
        "publicKey"@
    } else if i == 935 {
        "parentActivityName"@
    } else if i == 936 {
        "UNKNOWN"@
    } else if i == 937 {
        "isolatedProcess"@
    } else if i == 938 {
        "importantForAccessibility"@
    } else if i == 939 {
        "keyboardLayout"@
    } else if i == 940 {
        "fontFamily"@
    } else if i == 941 {
        "mediaRouteButtonStyle"@
    } else if i == 942 {
        "mediaRouteTypes"@
    } else if i == 943 {
        "supportsRtl"@
    } else if i == 944 {
        "textDirection"@
    } else if i == 945 {
        "textAlignment"@
    } else if i == 946 {
        "layoutDirection"@
    } else if i == 947 {
        "paddingStart"@
    } else if i == 948 {
        "paddingEnd"@
    } else if i == 949 {
        "layout_marginStart"@
    } else if i == 950 {
        "layout_marginEnd"@
    } else if i == 951 {
        "layout_toStartOf"@
    } else if i == 952 {
        "layout_toEndOf"@
    } else if i == 953 {
        "layout_alignStart"@
    } else if i == 954 {
        "layout_alignEnd"@
    } else if i == 955 {
        "layout_alignParentStart"@
    } else if i == 956 {
        "layout_alignParentEnd"@
    } else if i == 957 {
        "listPreferredItemPaddingStart"@
    } else if i == 958 {
        "listPreferredItemPaddingEnd"@
    } else if i == 959 {
        "singleUser"@
    } else if i == 960 {
        "presentationTheme"@
    } else if i == 961 {
        "subtypeId"@
    } else if i == 962 {
        "initialKeyguardLayout"@
    } else if i == 963 {
        "UNKNOWN"@
    } else if i == 964 {
        "widgetCategory"@
    } else if i == 965 {
        "permissionGroupFlags"@
    } else if i == 966 {
        "labelFor"@
    } else if i == 967 {
        "permissionFlags"@
    } else if i == 968 {
        "checkedTextViewStyle"@
    } else if i == 969 {
        "showOnLockScreen"@
    } else if i == 970 {
        "format12Hour"@
    } else if i == 971 {
        "format24Hour"@
    } else if i == 972 {
        "timeZone"@
    } else if i == 973 {
        "mipMap"@
    } else if i == 974 {
        "mirrorForRtl"@
    } else if i == 975 {
        "windowOverscan"@
    } else if i == 976 {
        "requiredForAllUsers"@
    } else if i == 977 {
        "indicatorStart"@
    } else if i == 978 {
        "indicatorEnd"@
    } else if i == 979 {
        "childIndicatorStart"@
    } else if i == 980 {
        "childIndicatorEnd"@
    } else if i == 981 {
        "restrictedAccountType"@
    } else if i == 982 {
        "requiredAccountType"@
    } else if i == 983 {
        "canRequestTouchExplorationMode"@
    } else if i == 984 {
        "canRequestEnhancedWebAccessibility"@
    } else if i == 985 {
        "canRequestFilterKeyEvents"@
    } else if i == 986 {
        "layoutMode"@
    } else if i == 987 {
        "keySet"@
    } else if i == 988 {
        "targetId"@
    } else if i == 989 {
        "fromScene"@
    } else if i == 990 {
        "toScene"@
    } else if i == 991 {
        "transition"@
    } else if i == 992 {
        "transitionOrdering"@
    } else if i == 993 {
        "fadingMode"@
    } else if i == 994 {
        "startDelay"@
    } else if i == 995 {
        "ssp"@
    } else if i == 996 {
        "sspPrefix"@
    } else if i == 997 {
        "sspPattern"@
    } else if i == 998 {
        "addPrintersActivity"@
    } else if i == 999 {
        "vendor"@
    } else {
        Seq::empty()
    }
}

/// Entries 1000 to 1099 of the attribute-name table.
pub open spec fn spec_resource_name_10(i: int) -> Seq<char> {
    if i == 1000 {
        "category"@
    } else if i == 1001 {
        "isAsciiCapable"@
    } else if i == 1002 {
        "autoMirrored"@
    } else if i == 1003 {
        "supportsSwitchingToNextInputMethod"@
    } else if i == 1004 {
        "requireDeviceUnlock"@
    } else if i == 1005 {
        "apduServiceBanner"@
    } else if i == 1006 {
        "accessibilityLiveRegion"@
    } else if i == 1007 {
        "windowTranslucentStatus"@
    } else if i == 1008 {
        "windowTranslucentNavigation"@
    } else if i == 1009 {
        "advancedPrintOptionsActivity"@
    } else if i == 1010 {
        "banner"@
    } else if i == 1011 {
        "windowSwipeToDismiss"@
    } else if i == 1012 {
        "isGame"@
    } else if i == 1013 {
        "allowEmbedded"@
    } else if i == 1014 {
        "setupActivity"@
    } else if i == 1015 {
        "fastScrollStyle"@
    } else if i == 1016 {
        "windowContentTransitions"@
    } else if i == 1017 {
        "windowContentTransitionManager"@
    } else if i == 1018 {
        "translationZ"@
    } else if i == 1019 {
        "tintMode"@
    } else if i == 1020 {
        "controlX1"@
    } else if i == 1021 {
        "controlY1"@
    } else if i == 1022 {
        "controlX2"@
    } else if i == 1023 {
        "controlY2"@
    } else if i == 1024 {
        "transitionName"@
    } else if i == 1025 {
        "transitionGroup"@
    } else if i == 1026 {
        "viewportWidth"@
    } else if i == 1027 {
        "viewportHeight"@
    } else if i == 1028 {
        "fillColor"@
    } else if i == 1029 {
        "pathData"@
    } else if i == 1030 {
        "strokeColor"@
    } else if i == 1031 {
        "strokeWidth"@
    } else if i == 1032 {
        "trimPathStart"@
    } else if i == 1033 {
        "trimPathEnd"@
    } else if i == 1034 {
        "trimPathOffset"@
    } else if i == 1035 {
        "strokeLineCap"@
    } else if i == 1036 {
        "strokeLineJoin"@
    } else if i == 1037 {
        "strokeMiterLimit"@
    } else if i == 1038 {
        "UNKNOWN"@
    } else if i == 1039 {
        "UNKNOWN"@
    } else if i == 1040 {
        "UNKNOWN"@
    } else if i == 1041 {
        "UNKNOWN"@
    } else if i == 1042 {
        "UNKNOWN"@
    } else if i == 1043 {
        "UNKNOWN"@
    } else if i == 1044 {
        "UNKNOWN"@
    } else if i == 1045 {
        "UNKNOWN"@
    } else if i == 1046 {
        "UNKNOWN"@
    } else if i == 1047 {
        "UNKNOWN"@
    } else if i == 1048 {
        "UNKNOWN"@
    } else if i == 1049 {
        "UNKNOWN"@
    } else if i == 1050 {
        "UNKNOWN"@
    } else if i == 1051 {
        "UNKNOWN"@
    } else if i == 1052 {
        "UNKNOWN"@
    } else if i == 1053 {
        "UNKNOWN"@
    } else if i == 1054 {
        "UNKNOWN"@
    } else if i == 1055 {
        "UNKNOWN"@
    } else if i == 1056 {
        "UNKNOWN"@
    } else if i == 1057 {
        "UNKNOWN"@
    } else if i == 1058 {
        "UNKNOWN"@
    } else if i == 1059 {
        "UNKNOWN"@
    } else if i == 1060 {
        "UNKNOWN"@
    } else if i == 1061 {
        "UNKNOWN"@
    } else if i == 1062 {
        "UNKNOWN"@
    } else if i == 1063 {
        "UNKNOWN"@
    } else if i == 1064 {
        "UNKNOWN"@
    } else if i == 1065 {
        "colorControlNormal"@
    } else if i == 1066 {
        "colorControlActivated"@
    } else if i == 1067 {
        "colorButtonNormal"@
    } else if i == 1068 {
        "colorControlHighlight"@
    } else if i == 1069 {
        "persistableMode"@
    } else if i == 1070 {
        "titleTextAppearance"@
    } else if i == 1071 {
        "subtitleTextAppearance"@
    } else if i == 1072 {
        "slideEdge"@
    } else if i == 1073 {
        "actionBarTheme"@
    } else if i == 1074 {
        "textAppearanceListItemSecondary"@
    } else if i == 1075 {
        "colorPrimary"@
    } else if i == 1076 {
        "colorPrimaryDark"@
    } else if i == 1077 {
        "colorAccent"@
    } else if i == 1078 {
        "nestedScrollingEnabled"@
    } else if i == 1079 {
        "windowEnterTransition"@
    } else if i == 1080 {
        "windowExitTransition"@
    } else if i == 1081 {
        "windowSharedElementEnterTransition"@
    } else if i == 1082 {
        "windowSharedElementExitTransition"@
    } else if i == 1083 {
        "windowAllowReturnTransitionOverlap"@
    } else if i == 1084 {
        "windowAllowEnterTransitionOverlap"@
    } else if i == 1085 {
        "sessionService"@
    } else if i == 1086 {
        "stackViewStyle"@
    } else if i == 1087 {
        "switchStyle"@
    } else if i == 1088 {
        "elevation"@
    } else if i == 1089 {
        "excludeId"@
    } else if i == 1090 {
        "excludeClass"@
    } else if i == 1091 {
        "hideOnContentScroll"@
    } else if i == 1092 {
        "actionOverflowMenuStyle"@
    } else if i == 1093 {
        "documentLaunchMode"@
    } else if i == 1094 {
        "maxRecents"@
    } else if i == 1095 {
        "autoRemoveFromRecents"@
    } else if i == 1096 {
        "stateListAnimator"@
    } else if i == 1097 {
        "toId"@
    } else if i == 1098 {
        "fromId"@
    } else if i == 1099 {
        "reversible"@
    } else {
        Seq::empty()
    }
}

/// Entries 1100 to 1199 of the attribute-name table.
pub open spec fn spec_resource_name_11(i: int) -> Seq<char> {
    if i == 1100 {
        "splitTrack"@
    } else if i == 1101 {
        "targetName"@
    } else if i == 1102 {
        "excludeName"@
    } else if i == 1103 {
        "matchOrder"@
    } else if i == 1104 {
        "windowDrawsSystemBarBackgrounds"@
    } else if i == 1105 {
        "statusBarColor"@
    } else if i == 1106 {
        "navigationBarColor"@
    } else if i == 1107 {
        "contentInsetStart"@
    } else if i == 1108 {
        "contentInsetEnd"@
    } else if i == 1109 {
        "contentInsetLeft"@
    } else if i == 1110 {
        "contentInsetRight"@
    } else if i == 1111 {
        "paddingMode"@
    } else if i == 1112 {
        "layout_rowWeight"@
    } else if i == 1113 {
        "layout_columnWeight"@
    } else if i == 1114 {
        "translateX"@
    } else if i == 1115 {
        "translateY"@
    } else if i == 1116 {
        "selectableItemBackgroundBorderless"@
    } else if i == 1117 {
        "elegantTextHeight"@
    } else if i == 1118 {
        "UNKNOWN"@
    } else if i == 1119 {
        "UNKNOWN"@
    } else if i == 1120 {
        "UNKNOWN"@
    } else if i == 1121 {
        "windowTransitionBackgroundFadeDuration"@
    } else if i == 1122 {
        "overlapAnchor"@
    } else if i == 1123 {
        "progressTint"@
    } else if i == 1124 {
        "progressTintMode"@
    } else if i == 1125 {
        "progressBackgroundTint"@
    } else if i == 1126 {
        "progressBackgroundTintMode"@
    } else if i == 1127 {
        "secondaryProgressTint"@
    } else if i == 1128 {
        "secondaryProgressTintMode"@
    } else if i == 1129 {
        "indeterminateTint"@
    } else if i == 1130 {
        "indeterminateTintMode"@
    } else if i == 1131 {
        "backgroundTint"@
    } else if i == 1132 {
        "backgroundTintMode"@
    } else if i == 1133 {
        "foregroundTint"@
    } else if i == 1134 {
        "foregroundTintMode"@
    } else if i == 1135 {
        "buttonTint"@
    } else if i == 1136 {
        "buttonTintMode"@
    } else if i == 1137 {
        "thumbTint"@
    } else if i == 1138 {
        "thumbTintMode"@
    } else if i == 1139 {
        "fullBackupOnly"@
    } else if i == 1140 {
        "propertyXName"@
    } else if i == 1141 {
        "propertyYName"@
    } else if i == 1142 {
        "relinquishTaskIdentity"@
    } else if i == 1143 {
        "tileModeX"@
    } else if i == 1144 {
        "tileModeY"@
    } else if i == 1145 {
        "actionModeShareDrawable"@
    } else if i == 1146 {
        "actionModeFindDrawable"@
    } else if i == 1147 {
        "actionModeWebSearchDrawable"@
    } else if i == 1148 {
        "transitionVisibilityMode"@
    } else if i == 1149 {
        "minimumHorizontalAngle"@
    } else if i == 1150 {
        "minimumVerticalAngle"@
    } else if i == 1151 {
        "maximumAngle"@
    } else if i == 1152 {
        "searchViewStyle"@
    } else if i == 1153 {
        "closeIcon"@
    } else if i == 1154 {
        "goIcon"@
    } else if i == 1155 {
        "searchIcon"@
    } else if i == 1156 {
        "voiceIcon"@
    } else if i == 1157 {
        "commitIcon"@
    } else if i == 1158 {
        "suggestionRowLayout"@
    } else if i == 1159 {
        "queryBackground"@
    } else if i == 1160 {
        "submitBackground"@
    } else if i == 1161 {
        "buttonBarPositiveButtonStyle"@
    } else if i == 1162 {
        "buttonBarNeutralButtonStyle"@
    } else if i == 1163 {
        "buttonBarNegativeButtonStyle"@
    } else if i == 1164 {
        "popupElevation"@
    } else if i == 1165 {
        "actionBarPopupTheme"@
    } else if i == 1166 {
        "multiArch"@
    } else if i == 1167 {
        "touchscreenBlocksFocus"@
    } else if i == 1168 {
        "windowElevation"@
    } else if i == 1169 {
        "launchTaskBehindTargetAnimation"@
    } else if i == 1170 {
        "launchTaskBehindSourceAnimation"@
    } else if i == 1171 {
        "restrictionType"@
    } else if i == 1172 {
        "dayOfWeekBackground"@
    } else if i == 1173 {
        "dayOfWeekTextAppearance"@
    } else if i == 1174 {
        "headerMonthTextAppearance"@
    } else if i == 1175 {
        "headerDayOfMonthTextAppearance"@
    } else if i == 1176 {
        "headerYearTextAppearance"@
    } else if i == 1177 {
        "yearListItemTextAppearance"@
    } else if i == 1178 {
        "yearListSelectorColor"@
    } else if i == 1179 {
        "calendarTextColor"@
    } else if i == 1180 {
        "recognitionService"@
    } else if i == 1181 {
        "timePickerStyle"@
    } else if i == 1182 {
        "timePickerDialogTheme"@
    } else if i == 1183 {
        "headerTimeTextAppearance"@
    } else if i == 1184 {
        "headerAmPmTextAppearance"@
    } else if i == 1185 {
        "numbersTextColor"@
    } else if i == 1186 {
        "numbersBackgroundColor"@
    } else if i == 1187 {
        "numbersSelectorColor"@
    } else if i == 1188 {
        "amPmTextColor"@
    } else if i == 1189 {
        "amPmBackgroundColor"@
    } else if i == 1190 {
        "UNKNOWN"@
    } else if i == 1191 {
        "checkMarkTint"@
    } else if i == 1192 {
        "checkMarkTintMode"@
    } else if i == 1193 {
        "popupTheme"@
    } else if i == 1194 {
        "toolbarStyle"@
    } else if i == 1195 {
        "windowClipToOutline"@
    } else if i == 1196 {
        "datePickerDialogTheme"@
    } else if i == 1197 {
        "showText"@
    } else if i == 1198 {
        "windowReturnTransition"@
    } else if i == 1199 {
        "windowReenterTransition"@
    } else {
        Seq::empty()
    }
}

/// Entries 1200 to 1299 of the attribute-name table.
pub open spec fn spec_resource_name_12(i: int) -> Seq<char> {
    if i == 1200 {
        "windowSharedElementReturnTransition"@
    } else if i == 1201 {
        "windowSharedElementReenterTransition"@
    } else if i == 1202 {
        "resumeWhilePausing"@
    } else if i == 1203 {
        "datePickerMode"@
    } else if i == 1204 {
        "timePickerMode"@
    } else if i == 1205 {
        "inset"@
    } else if i == 1206 {
        "letterSpacing"@
    } else if i == 1207 {
        "fontFeatureSettings"@
    } else if i == 1208 {
        "outlineProvider"@
    } else if i == 1209 {
        "contentAgeHint"@
    } else if i == 1210 {
        "country"@
    } else if i == 1211 {
        "windowSharedElementsUseOverlay"@
    } else if i == 1212 {
        "reparent"@
    } else if i == 1213 {
        "reparentWithOverlay"@
    } else if i == 1214 {
        "ambientShadowAlpha"@
    } else if i == 1215 {
        "spotShadowAlpha"@
    } else if i == 1216 {
        "navigationIcon"@
    } else if i == 1217 {
        "navigationContentDescription"@
    } else if i == 1218 {
        "fragmentExitTransition"@
    } else if i == 1219 {
        "fragmentEnterTransition"@
    } else if i == 1220 {
        "fragmentSharedElementEnterTransition"@
    } else if i == 1221 {
        "fragmentReturnTransition"@
    } else if i == 1222 {
        "fragmentSharedElementReturnTransition"@
    } else if i == 1223 {
        "fragmentReenterTransition"@
    } else if i == 1224 {
        "fragmentAllowEnterTransitionOverlap"@
    } else if i == 1225 {
        "fragmentAllowReturnTransitionOverlap"@
    } else if i == 1226 {
        "patternPathData"@
    } else if i == 1227 {
        "strokeAlpha"@
    } else if i == 1228 {
        "fillAlpha"@
    } else if i == 1229 {
        "windowActivityTransitions"@
    } else if i == 1230 {
        "colorEdgeEffect"@
    } else if i == 1231 {
        "resizeClip"@
    } else if i == 1232 {
        "collapseContentDescription"@
    } else if i == 1233 {
        "accessibilityTraversalBefore"@
    } else if i == 1234 {
        "accessibilityTraversalAfter"@
    } else if i == 1235 {
        "dialogPreferredPadding"@
    } else if i == 1236 {
        "searchHintIcon"@
    } else if i == 1237 {
        "revisionCode"@
    } else if i == 1238 {
        "drawableTint"@
    } else if i == 1239 {
        "drawableTintMode"@
    } else if i == 1240 {
        "fraction"@
    } else if i == 1241 {
        "trackTint"@
    } else if i == 1242 {
        "trackTintMode"@
    } else if i == 1243 {
        "start"@
    } else if i == 1244 {
        "end"@
    } else if i == 1245 {
        "breakStrategy"@
    } else if i == 1246 {
        "hyphenationFrequency"@
    } else if i == 1247 {
        "allowUndo"@
    } else if i == 1248 {
        "windowLightStatusBar"@
    } else if i == 1249 {
        "numbersInnerTextColor"@
    } else if i == 1250 {
        "colorBackgroundFloating"@
    } else if i == 1251 {
        "titleTextColor"@
    } else if i == 1252 {
        "subtitleTextColor"@
    } else if i == 1253 {
        "thumbPosition"@
    } else if i == 1254 {
        "scrollIndicators"@
    } else if i == 1255 {
        "contextClickable"@
    } else if i == 1256 {
        "fingerprintAuthDrawable"@
    } else if i == 1257 {
        "logoDescription"@
    } else if i == 1258 {
        "extractNativeLibs"@
    } else if i == 1259 {
        "fullBackupContent"@
    } else if i == 1260 {
        "usesCleartextTraffic"@
    } else if i == 1261 {
        "lockTaskMode"@
    } else if i == 1262 {
        "autoVerify"@
    } else if i == 1263 {
        "showForAllUsers"@
    } else if i == 1264 {
        "supportsAssist"@
    } else if i == 1265 {
        "supportsLaunchVoiceAssistFromKeyguard"@
    } else if i == 1266 {
        "listMenuViewStyle"@
    } else if i == 1267 {
        "subMenuArrow"@
    } else if i == 1268 {
        "defaultWidth"@
    } else if i == 1269 {
        "defaultHeight"@
    } else if i == 1270 {
        "resizeableActivity"@
    } else if i == 1271 {
        "supportsPictureInPicture"@
    } else if i == 1272 {
        "titleMargin"@
    } else if i == 1273 {
        "titleMarginStart"@
    } else if i == 1274 {
        "titleMarginEnd"@
    } else if i == 1275 {
        "titleMarginTop"@
    } else if i == 1276 {
        "titleMarginBottom"@
    } else if i == 1277 {
        "maxButtonHeight"@
    } else if i == 1278 {
        "buttonGravity"@
    } else if i == 1279 {
        "collapseIcon"@
    } else if i == 1280 {
        "level"@
    } else if i == 1281 {
        "contextPopupMenuStyle"@
    } else if i == 1282 {
        "textAppearancePopupMenuHeader"@
    } else if i == 1283 {
        "windowBackgroundFallback"@
    } else if i == 1284 {
        "defaultToDeviceProtectedStorage"@
    } else if i == 1285 {
        "directBootAware"@
    } else if i == 1286 {
        "preferenceFragmentStyle"@
    } else if i == 1287 {
        "canControlMagnification"@
    } else if i == 1288 {
        "languageTag"@
    } else if i == 1289 {
        "pointerIcon"@
    } else if i == 1290 {
        "tickMark"@
    } else if i == 1291 {
        "tickMarkTint"@
    } else if i == 1292 {
        "tickMarkTintMode"@
    } else if i == 1293 {
        "canPerformGestures"@
    } else if i == 1294 {
        "externalService"@
    } else if i == 1295 {
        "supportsLocalInteraction"@
    } else if i == 1296 {
        "startX"@
    } else if i == 1297 {
        "startY"@
    } else if i == 1298 {
        "endX"@
    } else if i == 1299 {
        "endY"@
    } else {
        Seq::empty()
    }
}

/// Entries 1300 to 1328 of the attribute-name table.
pub open spec fn spec_resource_name_13(i: int) -> Seq<char> {
    if i == 1300 {
        "offset"@
    } else if i == 1301 {
        "use32bitAbi"@
    } else if i == 1302 {
        "bitmap"@
    } else if i == 1303 {
        "hotSpotX"@
    } else if i == 1304 {
        "hotSpotY"@
    } else if i == 1305 {
        "version"@
    } else if i == 1306 {
        "backupInForeground"@
    } else if i == 1307 {
        "countDown"@
    } else if i == 1308 {
        "canRecord"@
    } else if i == 1309 {
        "tunerCount"@
    } else if i == 1310 {
        "fillType"@
    } else if i == 1311 {
        "popupEnterTransition"@
    } else if i == 1312 {
        "popupExitTransition"@
    } else if i == 1313 {
        "forceHasOverlappingRendering"@
    } else if i == 1314 {
        "contentInsetStartWithNavigation"@
    } else if i == 1315 {
        "contentInsetEndWithActions"@
    } else if i == 1316 {
        "numberPickerStyle"@
    } else if i == 1317 {
        "enableVrMode"@
    } else if i == 1318 {
        "UNKNOWN"@
    } else if i == 1319 {
        "networkSecurityConfig"@
    } else if i == 1320 {
        "shortcutId"@
    } else if i == 1321 {
        "shortcutShortLabel"@
    } else if i == 1322 {
        "shortcutLongLabel"@
    } else if i == 1323 {
        "shortcutDisabledMessage"@
    } else if i == 1324 {
        "roundIcon"@
    } else if i == 1325 {
        "contextUri"@
    } else if i == 1326 {
        "contextDescription"@
    } else if i == 1327 {
        "showMetadataInPreview"@
    } else if i == 1328 {
        "colorSecondary"@
    } else {
        Seq::empty()
    }
}

/// The attribute name at index `i` of the built-in table.
pub open spec fn spec_resource_name(i: int) -> Seq<char> {
    if i < 100 {
        spec_resource_name_0(i)
    } else if i < 200 {
        spec_resource_name_1(i)
    } else if i < 300 {
        spec_resource_name_2(i)
    } else if i < 400 {
        spec_resource_name_3(i)
    } else if i < 500 {
        spec_resource_name_4(i)
    } else if i < 600 {
        spec_resource_name_5(i)
    } else if i < 700 {
        spec_resource_name_6(i)
    } else if i < 800 {
        spec_resource_name_7(i)
    } else if i < 900 {
        spec_resource_name_8(i)
    } else if i < 1000 {
        spec_resource_name_9(i)
    } else if i < 1100 {
        spec_resource_name_10(i)
    } else if i < 1200 {
        spec_resource_name_11(i)
    } else if i < 1300 {
        spec_resource_name_12(i)
    } else if i < 1329 {
        spec_resource_name_13(i)
    } else {
        Seq::empty()
    }
}

/// Entries 0 to 99 of the attribute-name table.
fn resource_name_0(i: usize) -> (r: &'static str)
    requires
        0 <= i < 100,
    ensures
        r@ == spec_resource_name_0(i as int),
{
    if i == 0 {
        "theme"
    } else if i == 1 {
        "label"
    } else if i == 2 {
        "icon"
    } else if i == 3 {
        "name"
    } else if i == 4 {
        "manageSpaceActivity"
    } else if i == 5 {
        "allowClearUserData"
    } else if i == 6 {
        "permission"
    } else if i == 7 {
        "readPermission"
    } else if i == 8 {
        "writePermission"
    } else if i == 9 {
        "protectionLevel"
    } else if i == 10 {
        "permissionGroup"
    } else if i == 11 {
        "sharedUserId"
    } else if i == 12 {
        "hasCode"
    } else if i == 13 {
        "persistent"
    } else if i == 14 {
        "enabled"
    } else if i == 15 {
        "debuggable"
    } else if i == 16 {
        "exported"
    } else if i == 17 {
        "process"
    } else if i == 18 {
        "taskAffinity"
    } else if i == 19 {
        "multiprocess"
    } else if i == 20 {
        "finishOnTaskLaunch"
    } else if i == 21 {
        "clearTaskOnLaunch"
    } else if i == 22 {
        "stateNotNeeded"
    } else if i == 23 {
        "excludeFromRecents"
    } else if i == 24 {
        "authorities"
    } else if i == 25 {
        "syncable"
    } else if i == 26 {
        "initOrder"
    } else if i == 27 {
        "grantUriPermissions"
    } else if i == 28 {
        "priority"
    } else if i == 29 {
        "launchMode"
    } else if i == 30 {
        "screenOrientation"
    } else if i == 31 {
        "configChanges"
    } else if i == 32 {
        "description"
    } else if i == 33 {
        "targetPackage"
    } else if i == 34 {
        "handleProfiling"
    } else if i == 35 {
        "functionalTest"
    } else if i == 36 {
        "value"
    } else if i == 37 {
        "resource"
    } else if i == 38 {
        "mimeType"
    } else if i == 39 {
        "scheme"
    } else if i == 40 {
        "host"
    } else if i == 41 {
        "port"
    } else if i == 42 {
        "path"
    } else if i == 43 {
        "pathPrefix"
    } else if i == 44 {
        "pathPattern"
    } else if i == 45 {
        "action"
    } else if i == 46 {
        "data"
    } else if i == 47 {
        "targetClass"
    } else if i == 48 {
        "colorForeground"
    } else if i == 49 {
        "colorBackground"
    } else if i == 50 {
        "backgroundDimAmount"
    } else if i == 51 {
        "disabledAlpha"
    } else if i == 52 {
        "textAppearance"
    } else if i == 53 {
        "textAppearanceInverse"
    } else if i == 54 {
        "textColorPrimary"
    } else if i == 55 {
        "textColorPrimaryDisableOnly"
    } else if i == 56 {
        "textColorSecondary"
    } else if i == 57 {
        "textColorPrimaryInverse"
    } else if i == 58 {
        "textColorSecondaryInverse"
    } else if i == 59 {
        "textColorPrimaryNoDisable"
    } else if i == 60 {
        "textColorSecondaryNoDisable"
    } else if i == 61 {
        "textColorPrimaryInverseNoDisable"
    } else if i == 62 {
        "textColorSecondaryInverseNoDisable"
    } else if i == 63 {
        "textColorHintInverse"
    } else if i == 64 {
        "textAppearanceLarge"
    } else if i == 65 {
        "textAppearanceMedium"
    } else if i == 66 {
        "textAppearanceSmall"
    } else if i == 67 {
        "textAppearanceLargeInverse"
    } else if i == 68 {
        "textAppearanceMediumInverse"
    } else if i == 69 {
        "textAppearanceSmallInverse"
    } else if i == 70 {
        "textCheckMark"
    } else if i == 71 {
        "textCheckMarkInverse"
    } else if i == 72 {
        "buttonStyle"
    } else if i == 73 {
        "buttonStyleSmall"
    } else if i == 74 {
        "buttonStyleInset"
    } else if i == 75 {
        "buttonStyleToggle"
    } else if i == 76 {
        "galleryItemBackground"
    } else if i == 77 {
        "listPreferredItemHeight"
    } else if i == 78 {
        "expandableListPreferredItemPaddingLeft"
    } else if i == 79 {
        "expandableListPreferredChildPaddingLeft"
    } else if i == 80 {
        "expandableListPreferredItemIndicatorLeft"
    } else if i == 81 {
        "expandableListPreferredItemIndicatorRight"
    } else if i == 82 {
        "expandableListPreferredChildIndicatorLeft"
    } else if i == 83 {
        "expandableListPreferredChildIndicatorRight"
    } else if i == 84 {
        "windowBackground"
    } else if i == 85 {
        "windowFrame"
    } else if i == 86 {
        "windowNoTitle"
    } else if i == 87 {
        "windowIsFloating"
    } else if i == 88 {
        "windowIsTranslucent"
    } else if i == 89 {
        "windowContentOverlay"
    } else if i == 90 {
        "windowTitleSize"
    } else if i == 91 {
        "windowTitleStyle"
    } else if i == 92 {
        "windowTitleBackgroundStyle"
    } else if i == 93 {
        "alertDialogStyle"
    } else if i == 94 {
        "panelBackground"
    } else if i == 95 {
        "panelFullBackground"
    } else if i == 96 {
        "panelColorForeground"
    } else if i == 97 {
        "panelColorBackground"
    } else if i == 98 {
        "panelTextAppearance"
    } else if i == 99 {
        "scrollbarSize"
    } else {
        ""
    }
}

/// Entries 100 to 199 of the attribute-name table.
fn resource_name_1(i: usize) -> (r: &'static str)
    requires
        100 <= i < 200,
    ensures
        r@ == spec_resource_name_1(i as int),
{
    if i == 100 {
        "scrollbarThumbHorizontal"
    } else if i == 101 {
        "scrollbarThumbVertical"
    } else if i == 102 {
        "scrollbarTrackHorizontal"
    } else if i == 103 {
        "scrollbarTrackVertical"
    } else if i == 104 {
        "scrollbarAlwaysDrawHorizontalTrack"
    } else if i == 105 {
        "scrollbarAlwaysDrawVerticalTrack"
    } else if i == 106 {
        "absListViewStyle"
    } else if i == 107 {
        "autoCompleteTextViewStyle"
    } else if i == 108 {
        "checkboxStyle"
    } else if i == 109 {
        "dropDownListViewStyle"
    } else if i == 110 {
        "editTextStyle"
    } else if i == 111 {
        "expandableListViewStyle"
    } else if i == 112 {
        "galleryStyle"
    } else if i == 113 {
        "gridViewStyle"
    } else if i == 114 {
        "imageButtonStyle"
    } else if i == 115 {
        "imageWellStyle"
    } else if i == 116 {
        "listViewStyle"
    } else if i == 117 {
        "listViewWhiteStyle"
    } else if i == 118 {
        "popupWindowStyle"
    } else if i == 119 {
        "progressBarStyle"
    } else if i == 120 {
        "progressBarStyleHorizontal"
    } else if i == 121 {
        "progressBarStyleSmall"
    } else if i == 122 {
        "progressBarStyleLarge"
    } else if i == 123 {
        "seekBarStyle"
    } else if i == 124 {
        "ratingBarStyle"
    } else if i == 125 {
        "ratingBarStyleSmall"
    } else if i == 126 {
        "radioButtonStyle"
    } else if i == 127 {
        "scrollbarStyle"
    } else if i == 128 {
        "scrollViewStyle"
    } else if i == 129 {
        "spinnerStyle"
    } else if i == 130 {
        "starStyle"
    } else if i == 131 {
        "tabWidgetStyle"
    } else if i == 132 {
        "textViewStyle"
    } else if i == 133 {
        "webViewStyle"
    } else if i == 134 {
        "dropDownItemStyle"
    } else if i == 135 {
        "spinnerDropDownItemStyle"
    } else if i == 136 {
        "dropDownHintAppearance"
    } else if i == 137 {
        "spinnerItemStyle"
    } else if i == 138 {
        "mapViewStyle"
    } else if i == 139 {
        "preferenceScreenStyle"
    } else if i == 140 {
        "preferenceCategoryStyle"
    } else if i == 141 {
        "preferenceInformationStyle"
    } else if i == 142 {
        "preferenceStyle"
    } else if i == 143 {
        "checkBoxPreferenceStyle"
    } else if i == 144 {
        "yesNoPreferenceStyle"
    } else if i == 145 {
        "dialogPreferenceStyle"
    } else if i == 146 {
        "editTextPreferenceStyle"
    } else if i == 147 {
        "ringtonePreferenceStyle"
    } else if i == 148 {
        "preferenceLayoutChild"
    } else if i == 149 {
        "textSize"
    } else if i == 150 {
        "typeface"
    } else if i == 151 {
        "textStyle"
    } else if i == 152 {
        "textColor"
    } else if i == 153 {
        "textColorHighlight"
    } else if i == 154 {
        "textColorHint"
    } else if i == 155 {
        "textColorLink"
    } else if i == 156 {
        "state_focused"
    } else if i == 157 {
        "state_window_focused"
    } else if i == 158 {
        "state_enabled"
    } else if i == 159 {
        "state_checkable"
    } else if i == 160 {
        "state_checked"
    } else if i == 161 {
        "state_selected"
    } else if i == 162 {
        "state_active"
    } else if i == 163 {
        "state_single"
    } else if i == 164 {
        "state_first"
    } else if i == 165 {
        "state_middle"
    } else if i == 166 {
        "state_last"
    } else if i == 167 {
        "state_pressed"
    } else if i == 168 {
        "state_expanded"
    } else if i == 169 {
        "state_empty"
    } else if i == 170 {
        "state_above_anchor"
    } else if i == 171 {
        "ellipsize"
    } else if i == 172 {
        "x"
    } else if i == 173 {
        "y"
    } else if i == 174 {
        "windowAnimationStyle"
    } else if i == 175 {
        "gravity"
    } else if i == 176 {
        "autoLink"
    } else if i == 177 {
        "linksClickable"
    } else if i == 178 {
        "entries"
    } else if i == 179 {
        "layout_gravity"
    } else if i == 180 {
        "windowEnterAnimation"
    } else if i == 181 {
        "windowExitAnimation"
    } else if i == 182 {
        "windowShowAnimation"
    } else if i == 183 {
        "windowHideAnimation"
    } else if i == 184 {
        "activityOpenEnterAnimation"
    } else if i == 185 {
        "activityOpenExitAnimation"
    } else if i == 186 {
        "activityCloseEnterAnimation"
    } else if i == 187 {
        "activityCloseExitAnimation"
    } else if i == 188 {
        "taskOpenEnterAnimation"
    } else if i == 189 {
        "taskOpenExitAnimation"
    } else if i == 190 {
        "taskCloseEnterAnimation"
    } else if i == 191 {
        "taskCloseExitAnimation"
    } else if i == 192 {
        "taskToFrontEnterAnimation"
    } else if i == 193 {
        "taskToFrontExitAnimation"
    } else if i == 194 {
        "taskToBackEnterAnimation"
    } else if i == 195 {
        "taskToBackExitAnimation"
    } else if i == 196 {
        "orientation"
    } else if i == 197 {
        "keycode"
    } else if i == 198 {
        "fullDark"
    } else if i == 199 {
        "topDark"
    } else {
        ""
    }
}

/// Entries 200 to 299 of the attribute-name table.
fn resource_name_2(i: usize) -> (r: &'static str)
    requires
        200 <= i < 300,
    ensures
        r@ == spec_resource_name_2(i as int),
{
    if i == 200 {
        "centerDark"
    } else if i == 201 {
        "bottomDark"
    } else if i == 202 {
        "fullBright"
    } else if i == 203 {
        "topBright"
    } else if i == 204 {
        "centerBright"
    } else if i == 205 {
        "bottomBright"
    } else if i == 206 {
        "bottomMedium"
    } else if i == 207 {
        "centerMedium"
    } else if i == 208 {
        "id"
    } else if i == 209 {
        "tag"
    } else if i == 210 {
        "scrollX"
    } else if i == 211 {
        "scrollY"
    } else if i == 212 {
        "background"
    } else if i == 213 {
        "padding"
    } else if i == 214 {
        "paddingLeft"
    } else if i == 215 {
        "paddingTop"
    } else if i == 216 {
        "paddingRight"
    } else if i == 217 {
        "paddingBottom"
    } else if i == 218 {
        "focusable"
    } else if i == 219 {
        "focusableInTouchMode"
    } else if i == 220 {
        "visibility"
    } else if i == 221 {
        "fitsSystemWindows"
    } else if i == 222 {
        "scrollbars"
    } else if i == 223 {
        "fadingEdge"
    } else if i == 224 {
        "fadingEdgeLength"
    } else if i == 225 {
        "nextFocusLeft"
    } else if i == 226 {
        "nextFocusRight"
    } else if i == 227 {
        "nextFocusUp"
    } else if i == 228 {
        "nextFocusDown"
    } else if i == 229 {
        "clickable"
    } else if i == 230 {
        "longClickable"
    } else if i == 231 {
        "saveEnabled"
    } else if i == 232 {
        "drawingCacheQuality"
    } else if i == 233 {
        "duplicateParentState"
    } else if i == 234 {
        "clipChildren"
    } else if i == 235 {
        "clipToPadding"
    } else if i == 236 {
        "layoutAnimation"
    } else if i == 237 {
        "animationCache"
    } else if i == 238 {
        "persistentDrawingCache"
    } else if i == 239 {
        "alwaysDrawnWithCache"
    } else if i == 240 {
        "addStatesFromChildren"
    } else if i == 241 {
        "descendantFocusability"
    } else if i == 242 {
        "layout"
    } else if i == 243 {
        "inflatedId"
    } else if i == 244 {
        "layout_width"
    } else if i == 245 {
        "layout_height"
    } else if i == 246 {
        "layout_margin"
    } else if i == 247 {
        "layout_marginLeft"
    } else if i == 248 {
        "layout_marginTop"
    } else if i == 249 {
        "layout_marginRight"
    } else if i == 250 {
        "layout_marginBottom"
    } else if i == 251 {
        "listSelector"
    } else if i == 252 {
        "drawSelectorOnTop"
    } else if i == 253 {
        "stackFromBottom"
    } else if i == 254 {
        "scrollingCache"
    } else if i == 255 {
        "textFilterEnabled"
    } else if i == 256 {
        "transcriptMode"
    } else if i == 257 {
        "cacheColorHint"
    } else if i == 258 {
        "dial"
    } else if i == 259 {
        "hand_hour"
    } else if i == 260 {
        "hand_minute"
    } else if i == 261 {
        "format"
    } else if i == 262 {
        "checked"
    } else if i == 263 {
        "button"
    } else if i == 264 {
        "checkMark"
    } else if i == 265 {
        "foreground"
    } else if i == 266 {
        "measureAllChildren"
    } else if i == 267 {
        "groupIndicator"
    } else if i == 268 {
        "childIndicator"
    } else if i == 269 {
        "indicatorLeft"
    } else if i == 270 {
        "indicatorRight"
    } else if i == 271 {
        "childIndicatorLeft"
    } else if i == 272 {
        "childIndicatorRight"
    } else if i == 273 {
        "childDivider"
    } else if i == 274 {
        "animationDuration"
    } else if i == 275 {
        "spacing"
    } else if i == 276 {
        "horizontalSpacing"
    } else if i == 277 {
        "verticalSpacing"
    } else if i == 278 {
        "stretchMode"
    } else if i == 279 {
        "columnWidth"
    } else if i == 280 {
        "numColumns"
    } else if i == 281 {
        "src"
    } else if i == 282 {
        "antialias"
    } else if i == 283 {
        "filter"
    } else if i == 284 {
        "dither"
    } else if i == 285 {
        "scaleType"
    } else if i == 286 {
        "adjustViewBounds"
    } else if i == 287 {
        "maxWidth"
    } else if i == 288 {
        "maxHeight"
    } else if i == 289 {
        "tint"
    } else if i == 290 {
        "baselineAlignBottom"
    } else if i == 291 {
        "cropToPadding"
    } else if i == 292 {
        "textOn"
    } else if i == 293 {
        "textOff"
    } else if i == 294 {
        "baselineAligned"
    } else if i == 295 {
        "baselineAlignedChildIndex"
    } else if i == 296 {
        "weightSum"
    } else if i == 297 {
        "divider"
    } else if i == 298 {
        "dividerHeight"
    } else if i == 299 {
        "choiceMode"
    } else {
        ""
    }
}

/// Entries 300 to 399 of the attribute-name table.
fn resource_name_3(i: usize) -> (r: &'static str)
    requires
        300 <= i < 400,
    ensures
        r@ == spec_resource_name_3(i as int),
{
    if i == 300 {
        "itemTextAppearance"
    } else if i == 301 {
        "horizontalDivider"
    } else if i == 302 {
        "verticalDivider"
    } else if i == 303 {
        "headerBackground"
    } else if i == 304 {
        "itemBackground"
    } else if i == 305 {
        "itemIconDisabledAlpha"
    } else if i == 306 {
        "rowHeight"
    } else if i == 307 {
        "maxRows"
    } else if i == 308 {
        "maxItemsPerRow"
    } else if i == 309 {
        "moreIcon"
    } else if i == 310 {
        "max"
    } else if i == 311 {
        "progress"
    } else if i == 312 {
        "secondaryProgress"
    } else if i == 313 {
        "indeterminate"
    } else if i == 314 {
        "indeterminateOnly"
    } else if i == 315 {
        "indeterminateDrawable"
    } else if i == 316 {
        "progressDrawable"
    } else if i == 317 {
        "indeterminateDuration"
    } else if i == 318 {
        "indeterminateBehavior"
    } else if i == 319 {
        "minWidth"
    } else if i == 320 {
        "minHeight"
    } else if i == 321 {
        "interpolator"
    } else if i == 322 {
        "thumb"
    } else if i == 323 {
        "thumbOffset"
    } else if i == 324 {
        "numStars"
    } else if i == 325 {
        "rating"
    } else if i == 326 {
        "stepSize"
    } else if i == 327 {
        "isIndicator"
    } else if i == 328 {
        "checkedButton"
    } else if i == 329 {
        "stretchColumns"
    } else if i == 330 {
        "shrinkColumns"
    } else if i == 331 {
        "collapseColumns"
    } else if i == 332 {
        "layout_column"
    } else if i == 333 {
        "layout_span"
    } else if i == 334 {
        "bufferType"
    } else if i == 335 {
        "text"
    } else if i == 336 {
        "hint"
    } else if i == 337 {
        "textScaleX"
    } else if i == 338 {
        "cursorVisible"
    } else if i == 339 {
        "maxLines"
    } else if i == 340 {
        "lines"
    } else if i == 341 {
        "height"
    } else if i == 342 {
        "minLines"
    } else if i == 343 {
        "maxEms"
    } else if i == 344 {
        "ems"
    } else if i == 345 {
        "width"
    } else if i == 346 {
        "minEms"
    } else if i == 347 {
        "scrollHorizontally"
    } else if i == 348 {
        "password"
    } else if i == 349 {
        "singleLine"
    } else if i == 350 {
        "selectAllOnFocus"
    } else if i == 351 {
        "includeFontPadding"
    } else if i == 352 {
        "maxLength"
    } else if i == 353 {
        "shadowColor"
    } else if i == 354 {
        "shadowDx"
    } else if i == 355 {
        "shadowDy"
    } else if i == 356 {
        "shadowRadius"
    } else if i == 357 {
        "numeric"
    } else if i == 358 {
        "digits"
    } else if i == 359 {
        "phoneNumber"
    } else if i == 360 {
        "inputMethod"
    } else if i == 361 {
        "capitalize"
    } else if i == 362 {
        "autoText"
    } else if i == 363 {
        "editable"
    } else if i == 364 {
        "freezesText"
    } else if i == 365 {
        "drawableTop"
    } else if i == 366 {
        "drawableBottom"
    } else if i == 367 {
        "drawableLeft"
    } else if i == 368 {
        "drawableRight"
    } else if i == 369 {
        "drawablePadding"
    } else if i == 370 {
        "completionHint"
    } else if i == 371 {
        "completionHintView"
    } else if i == 372 {
        "completionThreshold"
    } else if i == 373 {
        "dropDownSelector"
    } else if i == 374 {
        "popupBackground"
    } else if i == 375 {
        "inAnimation"
    } else if i == 376 {
        "outAnimation"
    } else if i == 377 {
        "flipInterval"
    } else if i == 378 {
        "fillViewport"
    } else if i == 379 {
        "prompt"
    } else if i == 380 {
        "startYear"
    } else if i == 381 {
        "endYear"
    } else if i == 382 {
        "mode"
    } else if i == 383 {
        "layout_x"
    } else if i == 384 {
        "layout_y"
    } else if i == 385 {
        "layout_weight"
    } else if i == 386 {
        "layout_toLeftOf"
    } else if i == 387 {
        "layout_toRightOf"
    } else if i == 388 {
        "layout_above"
    } else if i == 389 {
        "layout_below"
    } else if i == 390 {
        "layout_alignBaseline"
    } else if i == 391 {
        "layout_alignLeft"
    } else if i == 392 {
        "layout_alignTop"
    } else if i == 393 {
        "layout_alignRight"
    } else if i == 394 {
        "layout_alignBottom"
    } else if i == 395 {
        "layout_alignParentLeft"
    } else if i == 396 {
        "layout_alignParentTop"
    } else if i == 397 {
        "layout_alignParentRight"
    } else if i == 398 {
        "layout_alignParentBottom"
    } else if i == 399 {
        "layout_centerInParent"
    } else {
        ""
    }
}

/// Entries 400 to 499 of the attribute-name table.
fn resource_name_4(i: usize) -> (r: &'static str)
    requires
        400 <= i < 500,
    ensures
        r@ == spec_resource_name_4(i as int),
{
    if i == 400 {
        "layout_centerHorizontal"
    } else if i == 401 {
        "layout_centerVertical"
    } else if i == 402 {
        "layout_alignWithParentIfMissing"
    } else if i == 403 {
        "layout_scale"
    } else if i == 404 {
        "visible"
    } else if i == 405 {
        "variablePadding"
    } else if i == 406 {
        "constantSize"
    } else if i == 407 {
        "oneshot"
    } else if i == 408 {
        "duration"
    } else if i == 409 {
        "drawable"
    } else if i == 410 {
        "shape"
    } else if i == 411 {
        "innerRadiusRatio"
    } else if i == 412 {
        "thicknessRatio"
    } else if i == 413 {
        "startColor"
    } else if i == 414 {
        "endColor"
    } else if i == 415 {
        "useLevel"
    } else if i == 416 {
        "angle"
    } else if i == 417 {
        "type"
    } else if i == 418 {
        "centerX"
    } else if i == 419 {
        "centerY"
    } else if i == 420 {
        "gradientRadius"
    } else if i == 421 {
        "color"
    } else if i == 422 {
        "dashWidth"
    } else if i == 423 {
        "dashGap"
    } else if i == 424 {
        "radius"
    } else if i == 425 {
        "topLeftRadius"
    } else if i == 426 {
        "topRightRadius"
    } else if i == 427 {
        "bottomLeftRadius"
    } else if i == 428 {
        "bottomRightRadius"
    } else if i == 429 {
        "left"
    } else if i == 430 {
        "top"
    } else if i == 431 {
        "right"
    } else if i == 432 {
        "bottom"
    } else if i == 433 {
        "minLevel"
    } else if i == 434 {
        "maxLevel"
    } else if i == 435 {
        "fromDegrees"
    } else if i == 436 {
        "toDegrees"
    } else if i == 437 {
        "pivotX"
    } else if i == 438 {
        "pivotY"
    } else if i == 439 {
        "insetLeft"
    } else if i == 440 {
        "insetRight"
    } else if i == 441 {
        "insetTop"
    } else if i == 442 {
        "insetBottom"
    } else if i == 443 {
        "shareInterpolator"
    } else if i == 444 {
        "fillBefore"
    } else if i == 445 {
        "fillAfter"
    } else if i == 446 {
        "startOffset"
    } else if i == 447 {
        "repeatCount"
    } else if i == 448 {
        "repeatMode"
    } else if i == 449 {
        "zAdjustment"
    } else if i == 450 {
        "fromXScale"
    } else if i == 451 {
        "toXScale"
    } else if i == 452 {
        "fromYScale"
    } else if i == 453 {
        "toYScale"
    } else if i == 454 {
        "fromXDelta"
    } else if i == 455 {
        "toXDelta"
    } else if i == 456 {
        "fromYDelta"
    } else if i == 457 {
        "toYDelta"
    } else if i == 458 {
        "fromAlpha"
    } else if i == 459 {
        "toAlpha"
    } else if i == 460 {
        "delay"
    } else if i == 461 {
        "animation"
    } else if i == 462 {
        "animationOrder"
    } else if i == 463 {
        "columnDelay"
    } else if i == 464 {
        "rowDelay"
    } else if i == 465 {
        "direction"
    } else if i == 466 {
        "directionPriority"
    } else if i == 467 {
        "factor"
    } else if i == 468 {
        "cycles"
    } else if i == 469 {
        "searchMode"
    } else if i == 470 {
        "searchSuggestAuthority"
    } else if i == 471 {
        "searchSuggestPath"
    } else if i == 472 {
        "searchSuggestSelection"
    } else if i == 473 {
        "searchSuggestIntentAction"
    } else if i == 474 {
        "searchSuggestIntentData"
    } else if i == 475 {
        "queryActionMsg"
    } else if i == 476 {
        "suggestActionMsg"
    } else if i == 477 {
        "suggestActionMsgColumn"
    } else if i == 478 {
        "menuCategory"
    } else if i == 479 {
        "orderInCategory"
    } else if i == 480 {
        "checkableBehavior"
    } else if i == 481 {
        "title"
    } else if i == 482 {
        "titleCondensed"
    } else if i == 483 {
        "alphabeticShortcut"
    } else if i == 484 {
        "numericShortcut"
    } else if i == 485 {
        "checkable"
    } else if i == 486 {
        "selectable"
    } else if i == 487 {
        "orderingFromXml"
    } else if i == 488 {
        "key"
    } else if i == 489 {
        "summary"
    } else if i == 490 {
        "order"
    } else if i == 491 {
        "widgetLayout"
    } else if i == 492 {
        "dependency"
    } else if i == 493 {
        "defaultValue"
    } else if i == 494 {
        "shouldDisableView"
    } else if i == 495 {
        "summaryOn"
    } else if i == 496 {
        "summaryOff"
    } else if i == 497 {
        "disableDependentsState"
    } else if i == 498 {
        "dialogTitle"
    } else if i == 499 {
        "dialogMessage"
    } else {
        ""
    }
}

/// Entries 500 to 599 of the attribute-name table.
fn resource_name_5(i: usize) -> (r: &'static str)
    requires
        500 <= i < 600,
    ensures
        r@ == spec_resource_name_5(i as int),
{
    if i == 500 {
        "dialogIcon"
    } else if i == 501 {
        "positiveButtonText"
    } else if i == 502 {
        "negativeButtonText"
    } else if i == 503 {
        "dialogLayout"
    } else if i == 504 {
        "entryValues"
    } else if i == 505 {
        "ringtoneType"
    } else if i == 506 {
        "showDefault"
    } else if i == 507 {
        "showSilent"
    } else if i == 508 {
        "scaleWidth"
    } else if i == 509 {
        "scaleHeight"
    } else if i == 510 {
        "scaleGravity"
    } else if i == 511 {
        "ignoreGravity"
    } else if i == 512 {
        "foregroundGravity"
    } else if i == 513 {
        "tileMode"
    } else if i == 514 {
        "targetActivity"
    } else if i == 515 {
        "alwaysRetainTaskState"
    } else if i == 516 {
        "allowTaskReparenting"
    } else if i == 517 {
        "searchButtonText"
    } else if i == 518 {
        "colorForegroundInverse"
    } else if i == 519 {
        "textAppearanceButton"
    } else if i == 520 {
        "listSeparatorTextViewStyle"
    } else if i == 521 {
        "streamType"
    } else if i == 522 {
        "clipOrientation"
    } else if i == 523 {
        "centerColor"
    } else if i == 524 {
        "minSdkVersion"
    } else if i == 525 {
        "windowFullscreen"
    } else if i == 526 {
        "unselectedAlpha"
    } else if i == 527 {
        "progressBarStyleSmallTitle"
    } else if i == 528 {
        "ratingBarStyleIndicator"
    } else if i == 529 {
        "apiKey"
    } else if i == 530 {
        "textColorTertiary"
    } else if i == 531 {
        "textColorTertiaryInverse"
    } else if i == 532 {
        "listDivider"
    } else if i == 533 {
        "soundEffectsEnabled"
    } else if i == 534 {
        "keepScreenOn"
    } else if i == 535 {
        "lineSpacingExtra"
    } else if i == 536 {
        "lineSpacingMultiplier"
    } else if i == 537 {
        "listChoiceIndicatorSingle"
    } else if i == 538 {
        "listChoiceIndicatorMultiple"
    } else if i == 539 {
        "versionCode"
    } else if i == 540 {
        "versionName"
    } else if i == 541 {
        "marqueeRepeatLimit"
    } else if i == 542 {
        "windowNoDisplay"
    } else if i == 543 {
        "backgroundDimEnabled"
    } else if i == 544 {
        "inputType"
    } else if i == 545 {
        "isDefault"
    } else if i == 546 {
        "windowDisablePreview"
    } else if i == 547 {
        "privateImeOptions"
    } else if i == 548 {
        "editorExtras"
    } else if i == 549 {
        "settingsActivity"
    } else if i == 550 {
        "fastScrollEnabled"
    } else if i == 551 {
        "reqTouchScreen"
    } else if i == 552 {
        "reqKeyboardType"
    } else if i == 553 {
        "reqHardKeyboard"
    } else if i == 554 {
        "reqNavigation"
    } else if i == 555 {
        "windowSoftInputMode"
    } else if i == 556 {
        "imeFullscreenBackground"
    } else if i == 557 {
        "noHistory"
    } else if i == 558 {
        "headerDividersEnabled"
    } else if i == 559 {
        "footerDividersEnabled"
    } else if i == 560 {
        "candidatesTextStyleSpans"
    } else if i == 561 {
        "smoothScrollbar"
    } else if i == 562 {
        "reqFiveWayNav"
    } else if i == 563 {
        "keyBackground"
    } else if i == 564 {
        "keyTextSize"
    } else if i == 565 {
        "labelTextSize"
    } else if i == 566 {
        "keyTextColor"
    } else if i == 567 {
        "keyPreviewLayout"
    } else if i == 568 {
        "keyPreviewOffset"
    } else if i == 569 {
        "keyPreviewHeight"
    } else if i == 570 {
        "verticalCorrection"
    } else if i == 571 {
        "popupLayout"
    } else if i == 572 {
        "state_long_pressable"
    } else if i == 573 {
        "keyWidth"
    } else if i == 574 {
        "keyHeight"
    } else if i == 575 {
        "horizontalGap"
    } else if i == 576 {
        "verticalGap"
    } else if i == 577 {
        "rowEdgeFlags"
    } else if i == 578 {
        "codes"
    } else if i == 579 {
        "popupKeyboard"
    } else if i == 580 {
        "popupCharacters"
    } else if i == 581 {
        "keyEdgeFlags"
    } else if i == 582 {
        "isModifier"
    } else if i == 583 {
        "isSticky"
    } else if i == 584 {
        "isRepeatable"
    } else if i == 585 {
        "iconPreview"
    } else if i == 586 {
        "keyOutputText"
    } else if i == 587 {
        "keyLabel"
    } else if i == 588 {
        "keyIcon"
    } else if i == 589 {
        "keyboardMode"
    } else if i == 590 {
        "isScrollContainer"
    } else if i == 591 {
        "fillEnabled"
    } else if i == 592 {
        "updatePeriodMillis"
    } else if i == 593 {
        "initialLayout"
    } else if i == 594 {
        "voiceSearchMode"
    } else if i == 595 {
        "voiceLanguageModel"
    } else if i == 596 {
        "voicePromptText"
    } else if i == 597 {
        "voiceLanguage"
    } else if i == 598 {
        "voiceMaxResults"
    } else if i == 599 {
        "bottomOffset"
    } else {
        ""
    }
}

/// Entries 600 to 699 of the attribute-name table.
fn resource_name_6(i: usize) -> (r: &'static str)
    requires
        600 <= i < 700,
    ensures
        r@ == spec_resource_name_6(i as int),
{
    if i == 600 {
        "topOffset"
    } else if i == 601 {
        "allowSingleTap"
    } else if i == 602 {
        "handle"
    } else if i == 603 {
        "content"
    } else if i == 604 {
        "animateOnClick"
    } else if i == 605 {
        "configure"
    } else if i == 606 {
        "hapticFeedbackEnabled"
    } else if i == 607 {
        "innerRadius"
    } else if i == 608 {
        "thickness"
    } else if i == 609 {
        "sharedUserLabel"
    } else if i == 610 {
        "dropDownWidth"
    } else if i == 611 {
        "dropDownAnchor"
    } else if i == 612 {
        "imeOptions"
    } else if i == 613 {
        "imeActionLabel"
    } else if i == 614 {
        "imeActionId"
    } else if i == 615 {
        "UNKNOWN"
    } else if i == 616 {
        "imeExtractEnterAnimation"
    } else if i == 617 {
        "imeExtractExitAnimation"
    } else if i == 618 {
        "tension"
    } else if i == 619 {
        "extraTension"
    } else if i == 620 {
        "anyDensity"
    } else if i == 621 {
        "searchSuggestThreshold"
    } else if i == 622 {
        "includeInGlobalSearch"
    } else if i == 623 {
        "onClick"
    } else if i == 624 {
        "targetSdkVersion"
    } else if i == 625 {
        "maxSdkVersion"
    } else if i == 626 {
        "testOnly"
    } else if i == 627 {
        "contentDescription"
    } else if i == 628 {
        "gestureStrokeWidth"
    } else if i == 629 {
        "gestureColor"
    } else if i == 630 {
        "uncertainGestureColor"
    } else if i == 631 {
        "fadeOffset"
    } else if i == 632 {
        "fadeDuration"
    } else if i == 633 {
        "gestureStrokeType"
    } else if i == 634 {
        "gestureStrokeLengthThreshold"
    } else if i == 635 {
        "gestureStrokeSquarenessThreshold"
    } else if i == 636 {
        "gestureStrokeAngleThreshold"
    } else if i == 637 {
        "eventsInterceptionEnabled"
    } else if i == 638 {
        "fadeEnabled"
    } else if i == 639 {
        "backupAgent"
    } else if i == 640 {
        "allowBackup"
    } else if i == 641 {
        "glEsVersion"
    } else if i == 642 {
        "queryAfterZeroResults"
    } else if i == 643 {
        "dropDownHeight"
    } else if i == 644 {
        "smallScreens"
    } else if i == 645 {
        "normalScreens"
    } else if i == 646 {
        "largeScreens"
    } else if i == 647 {
        "progressBarStyleInverse"
    } else if i == 648 {
        "progressBarStyleSmallInverse"
    } else if i == 649 {
        "progressBarStyleLargeInverse"
    } else if i == 650 {
        "searchSettingsDescription"
    } else if i == 651 {
        "textColorPrimaryInverseDisableOnly"
    } else if i == 652 {
        "autoUrlDetect"
    } else if i == 653 {
        "resizeable"
    } else if i == 654 {
        "required"
    } else if i == 655 {
        "accountType"
    } else if i == 656 {
        "contentAuthority"
    } else if i == 657 {
        "userVisible"
    } else if i == 658 {
        "windowShowWallpaper"
    } else if i == 659 {
        "wallpaperOpenEnterAnimation"
    } else if i == 660 {
        "wallpaperOpenExitAnimation"
    } else if i == 661 {
        "wallpaperCloseEnterAnimation"
    } else if i == 662 {
        "wallpaperCloseExitAnimation"
    } else if i == 663 {
        "wallpaperIntraOpenEnterAnimation"
    } else if i == 664 {
        "wallpaperIntraOpenExitAnimation"
    } else if i == 665 {
        "wallpaperIntraCloseEnterAnimation"
    } else if i == 666 {
        "wallpaperIntraCloseExitAnimation"
    } else if i == 667 {
        "supportsUploading"
    } else if i == 668 {
        "killAfterRestore"
    } else if i == 669 {
        "restoreNeedsApplication"
    } else if i == 670 {
        "smallIcon"
    } else if i == 671 {
        "accountPreferences"
    } else if i == 672 {
        "textAppearanceSearchResultSubtitle"
    } else if i == 673 {
        "textAppearanceSearchResultTitle"
    } else if i == 674 {
        "summaryColumn"
    } else if i == 675 {
        "detailColumn"
    } else if i == 676 {
        "detailSocialSummary"
    } else if i == 677 {
        "thumbnail"
    } else if i == 678 {
        "detachWallpaper"
    } else if i == 679 {
        "finishOnCloseSystemDialogs"
    } else if i == 680 {
        "scrollbarFadeDuration"
    } else if i == 681 {
        "scrollbarDefaultDelayBeforeFade"
    } else if i == 682 {
        "fadeScrollbars"
    } else if i == 683 {
        "colorBackgroundCacheHint"
    } else if i == 684 {
        "dropDownHorizontalOffset"
    } else if i == 685 {
        "dropDownVerticalOffset"
    } else if i == 686 {
        "quickContactBadgeStyleWindowSmall"
    } else if i == 687 {
        "quickContactBadgeStyleWindowMedium"
    } else if i == 688 {
        "quickContactBadgeStyleWindowLarge"
    } else if i == 689 {
        "quickContactBadgeStyleSmallWindowSmall"
    } else if i == 690 {
        "quickContactBadgeStyleSmallWindowMedium"
    } else if i == 691 {
        "quickContactBadgeStyleSmallWindowLarge"
    } else if i == 692 {
        "author"
    } else if i == 693 {
        "autoStart"
    } else if i == 694 {
        "expandableListViewWhiteStyle"
    } else if i == 695 {
        "installLocation"
    } else if i == 696 {
        "vmSafeMode"
    } else if i == 697 {
        "webTextViewStyle"
    } else if i == 698 {
        "restoreAnyVersion"
    } else if i == 699 {
        "tabStripLeft"
    } else {
        ""
    }
}

/// Entries 700 to 799 of the attribute-name table.
fn resource_name_7(i: usize) -> (r: &'static str)
    requires
        700 <= i < 800,
    ensures
        r@ == spec_resource_name_7(i as int),
{
    if i == 700 {
        "tabStripRight"
    } else if i == 701 {
        "tabStripEnabled"
    } else if i == 702 {
        "logo"
    } else if i == 703 {
        "xlargeScreens"
    } else if i == 704 {
        "immersive"
    } else if i == 705 {
        "overScrollMode"
    } else if i == 706 {
        "overScrollHeader"
    } else if i == 707 {
        "overScrollFooter"
    } else if i == 708 {
        "filterTouchesWhenObscured"
    } else if i == 709 {
        "textSelectHandleLeft"
    } else if i == 710 {
        "textSelectHandleRight"
    } else if i == 711 {
        "textSelectHandle"
    } else if i == 712 {
        "textSelectHandleWindowStyle"
    } else if i == 713 {
        "popupAnimationStyle"
    } else if i == 714 {
        "screenSize"
    } else if i == 715 {
        "screenDensity"
    } else if i == 716 {
        "allContactsName"
    } else if i == 717 {
        "windowActionBar"
    } else if i == 718 {
        "actionBarStyle"
    } else if i == 719 {
        "navigationMode"
    } else if i == 720 {
        "displayOptions"
    } else if i == 721 {
        "subtitle"
    } else if i == 722 {
        "customNavigationLayout"
    } else if i == 723 {
        "hardwareAccelerated"
    } else if i == 724 {
        "measureWithLargestChild"
    } else if i == 725 {
        "animateFirstView"
    } else if i == 726 {
        "dropDownSpinnerStyle"
    } else if i == 727 {
        "actionDropDownStyle"
    } else if i == 728 {
        "actionButtonStyle"
    } else if i == 729 {
        "showAsAction"
    } else if i == 730 {
        "previewImage"
    } else if i == 731 {
        "actionModeBackground"
    } else if i == 732 {
        "actionModeCloseDrawable"
    } else if i == 733 {
        "windowActionModeOverlay"
    } else if i == 734 {
        "valueFrom"
    } else if i == 735 {
        "valueTo"
    } else if i == 736 {
        "valueType"
    } else if i == 737 {
        "propertyName"
    } else if i == 738 {
        "ordering"
    } else if i == 739 {
        "fragment"
    } else if i == 740 {
        "windowActionBarOverlay"
    } else if i == 741 {
        "fragmentOpenEnterAnimation"
    } else if i == 742 {
        "fragmentOpenExitAnimation"
    } else if i == 743 {
        "fragmentCloseEnterAnimation"
    } else if i == 744 {
        "fragmentCloseExitAnimation"
    } else if i == 745 {
        "fragmentFadeEnterAnimation"
    } else if i == 746 {
        "fragmentFadeExitAnimation"
    } else if i == 747 {
        "actionBarSize"
    } else if i == 748 {
        "imeSubtypeLocale"
    } else if i == 749 {
        "imeSubtypeMode"
    } else if i == 750 {
        "imeSubtypeExtraValue"
    } else if i == 751 {
        "splitMotionEvents"
    } else if i == 752 {
        "listChoiceBackgroundIndicator"
    } else if i == 753 {
        "spinnerMode"
    } else if i == 754 {
        "animateLayoutChanges"
    } else if i == 755 {
        "actionBarTabStyle"
    } else if i == 756 {
        "actionBarTabBarStyle"
    } else if i == 757 {
        "actionBarTabTextStyle"
    } else if i == 758 {
        "actionOverflowButtonStyle"
    } else if i == 759 {
        "actionModeCloseButtonStyle"
    } else if i == 760 {
        "titleTextStyle"
    } else if i == 761 {
        "subtitleTextStyle"
    } else if i == 762 {
        "iconifiedByDefault"
    } else if i == 763 {
        "actionLayout"
    } else if i == 764 {
        "actionViewClass"
    } else if i == 765 {
        "activatedBackgroundIndicator"
    } else if i == 766 {
        "state_activated"
    } else if i == 767 {
        "listPopupWindowStyle"
    } else if i == 768 {
        "popupMenuStyle"
    } else if i == 769 {
        "textAppearanceLargePopupMenu"
    } else if i == 770 {
        "textAppearanceSmallPopupMenu"
    } else if i == 771 {
        "breadCrumbTitle"
    } else if i == 772 {
        "breadCrumbShortTitle"
    } else if i == 773 {
        "listDividerAlertDialog"
    } else if i == 774 {
        "textColorAlertDialogListItem"
    } else if i == 775 {
        "loopViews"
    } else if i == 776 {
        "dialogTheme"
    } else if i == 777 {
        "alertDialogTheme"
    } else if i == 778 {
        "dividerVertical"
    } else if i == 779 {
        "homeAsUpIndicator"
    } else if i == 780 {
        "enterFadeDuration"
    } else if i == 781 {
        "exitFadeDuration"
    } else if i == 782 {
        "selectableItemBackground"
    } else if i == 783 {
        "autoAdvanceViewId"
    } else if i == 784 {
        "useIntrinsicSizeAsMinimum"
    } else if i == 785 {
        "actionModeCutDrawable"
    } else if i == 786 {
        "actionModeCopyDrawable"
    } else if i == 787 {
        "actionModePasteDrawable"
    } else if i == 788 {
        "textEditPasteWindowLayout"
    } else if i == 789 {
        "textEditNoPasteWindowLayout"
    } else if i == 790 {
        "textIsSelectable"
    } else if i == 791 {
        "windowEnableSplitTouch"
    } else if i == 792 {
        "indeterminateProgressStyle"
    } else if i == 793 {
        "progressBarPadding"
    } else if i == 794 {
        "animationResolution"
    } else if i == 795 {
        "state_accelerated"
    } else if i == 796 {
        "baseline"
    } else if i == 797 {
        "homeLayout"
    } else if i == 798 {
        "opacity"
    } else if i == 799 {
        "alpha"
    } else {
        ""
    }
}

/// Entries 800 to 899 of the attribute-name table.
fn resource_name_8(i: usize) -> (r: &'static str)
    requires
        800 <= i < 900,
    ensures
        r@ == spec_resource_name_8(i as int),
{
    if i == 800 {
        "transformPivotX"
    } else if i == 801 {
        "transformPivotY"
    } else if i == 802 {
        "translationX"
    } else if i == 803 {
        "translationY"
    } else if i == 804 {
        "scaleX"
    } else if i == 805 {
        "scaleY"
    } else if i == 806 {
        "rotation"
    } else if i == 807 {
        "rotationX"
    } else if i == 808 {
        "rotationY"
    } else if i == 809 {
        "showDividers"
    } else if i == 810 {
        "dividerPadding"
    } else if i == 811 {
        "borderlessButtonStyle"
    } else if i == 812 {
        "dividerHorizontal"
    } else if i == 813 {
        "itemPadding"
    } else if i == 814 {
        "buttonBarStyle"
    } else if i == 815 {
        "buttonBarButtonStyle"
    } else if i == 816 {
        "segmentedButtonStyle"
    } else if i == 817 {
        "staticWallpaperPreview"
    } else if i == 818 {
        "allowParallelSyncs"
    } else if i == 819 {
        "isAlwaysSyncable"
    } else if i == 820 {
        "verticalScrollbarPosition"
    } else if i == 821 {
        "fastScrollAlwaysVisible"
    } else if i == 822 {
        "fastScrollThumbDrawable"
    } else if i == 823 {
        "fastScrollPreviewBackgroundLeft"
    } else if i == 824 {
        "fastScrollPreviewBackgroundRight"
    } else if i == 825 {
        "fastScrollTrackDrawable"
    } else if i == 826 {
        "fastScrollOverlayPosition"
    } else if i == 827 {
        "customTokens"
    } else if i == 828 {
        "nextFocusForward"
    } else if i == 829 {
        "firstDayOfWeek"
    } else if i == 830 {
        "showWeekNumber"
    } else if i == 831 {
        "minDate"
    } else if i == 832 {
        "maxDate"
    } else if i == 833 {
        "shownWeekCount"
    } else if i == 834 {
        "selectedWeekBackgroundColor"
    } else if i == 835 {
        "focusedMonthDateColor"
    } else if i == 836 {
        "unfocusedMonthDateColor"
    } else if i == 837 {
        "weekNumberColor"
    } else if i == 838 {
        "weekSeparatorLineColor"
    } else if i == 839 {
        "selectedDateVerticalBar"
    } else if i == 840 {
        "weekDayTextAppearance"
    } else if i == 841 {
        "dateTextAppearance"
    } else if i == 842 {
        "UNKNOWN"
    } else if i == 843 {
        "spinnersShown"
    } else if i == 844 {
        "calendarViewShown"
    } else if i == 845 {
        "state_multiline"
    } else if i == 846 {
        "detailsElementBackground"
    } else if i == 847 {
        "textColorHighlightInverse"
    } else if i == 848 {
        "textColorLinkInverse"
    } else if i == 849 {
        "editTextColor"
    } else if i == 850 {
        "editTextBackground"
    } else if i == 851 {
        "horizontalScrollViewStyle"
    } else if i == 852 {
        "layerType"
    } else if i == 853 {
        "alertDialogIcon"
    } else if i == 854 {
        "windowMinWidthMajor"
    } else if i == 855 {
        "windowMinWidthMinor"
    } else if i == 856 {
        "queryHint"
    } else if i == 857 {
        "fastScrollTextColor"
    } else if i == 858 {
        "largeHeap"
    } else if i == 859 {
        "windowCloseOnTouchOutside"
    } else if i == 860 {
        "datePickerStyle"
    } else if i == 861 {
        "calendarViewStyle"
    } else if i == 862 {
        "textEditSidePasteWindowLayout"
    } else if i == 863 {
        "textEditSideNoPasteWindowLayout"
    } else if i == 864 {
        "actionMenuTextAppearance"
    } else if i == 865 {
        "actionMenuTextColor"
    } else if i == 866 {
        "textCursorDrawable"
    } else if i == 867 {
        "resizeMode"
    } else if i == 868 {
        "requiresSmallestWidthDp"
    } else if i == 869 {
        "compatibleWidthLimitDp"
    } else if i == 870 {
        "largestWidthLimitDp"
    } else if i == 871 {
        "state_hovered"
    } else if i == 872 {
        "state_drag_can_accept"
    } else if i == 873 {
        "state_drag_hovered"
    } else if i == 874 {
        "stopWithTask"
    } else if i == 875 {
        "switchTextOn"
    } else if i == 876 {
        "switchTextOff"
    } else if i == 877 {
        "switchPreferenceStyle"
    } else if i == 878 {
        "switchTextAppearance"
    } else if i == 879 {
        "track"
    } else if i == 880 {
        "switchMinWidth"
    } else if i == 881 {
        "switchPadding"
    } else if i == 882 {
        "thumbTextPadding"
    } else if i == 883 {
        "textSuggestionsWindowStyle"
    } else if i == 884 {
        "textEditSuggestionItemLayout"
    } else if i == 885 {
        "rowCount"
    } else if i == 886 {
        "rowOrderPreserved"
    } else if i == 887 {
        "columnCount"
    } else if i == 888 {
        "columnOrderPreserved"
    } else if i == 889 {
        "useDefaultMargins"
    } else if i == 890 {
        "alignmentMode"
    } else if i == 891 {
        "layout_row"
    } else if i == 892 {
        "layout_rowSpan"
    } else if i == 893 {
        "layout_columnSpan"
    } else if i == 894 {
        "actionModeSelectAllDrawable"
    } else if i == 895 {
        "isAuxiliary"
    } else if i == 896 {
        "accessibilityEventTypes"
    } else if i == 897 {
        "packageNames"
    } else if i == 898 {
        "accessibilityFeedbackType"
    } else if i == 899 {
        "notificationTimeout"
    } else {
        ""
    }
}

/// Entries 900 to 999 of the attribute-name table.
fn resource_name_9(i: usize) -> (r: &'static str)
    requires
        900 <= i < 1000,
    ensures
        r@ == spec_resource_name_9(i as int),
{
    if i == 900 {
        "accessibilityFlags"
    } else if i == 901 {
        "canRetrieveWindowContent"
    } else if i == 902 {
        "listPreferredItemHeightLarge"
    } else if i == 903 {
        "listPreferredItemHeightSmall"
    } else if i == 904 {
        "actionBarSplitStyle"
    } else if i == 905 {
        "actionProviderClass"
    } else if i == 906 {
        "backgroundStacked"
    } else if i == 907 {
        "backgroundSplit"
    } else if i == 908 {
        "textAllCaps"
    } else if i == 909 {
        "colorPressedHighlight"
    } else if i == 910 {
        "colorLongPressedHighlight"
    } else if i == 911 {
        "colorFocusedHighlight"
    } else if i == 912 {
        "colorActivatedHighlight"
    } else if i == 913 {
        "colorMultiSelectHighlight"
    } else if i == 914 {
        "drawableStart"
    } else if i == 915 {
        "drawableEnd"
    } else if i == 916 {
        "actionModeStyle"
    } else if i == 917 {
        "minResizeWidth"
    } else if i == 918 {
        "minResizeHeight"
    } else if i == 919 {
        "actionBarWidgetTheme"
    } else if i == 920 {
        "uiOptions"
    } else if i == 921 {
        "subtypeLocale"
    } else if i == 922 {
        "subtypeExtraValue"
    } else if i == 923 {
        "actionBarDivider"
    } else if i == 924 {
        "actionBarItemBackground"
    } else if i == 925 {
        "actionModeSplitBackground"
    } else if i == 926 {
        "textAppearanceListItem"
    } else if i == 927 {
        "textAppearanceListItemSmall"
    } else if i == 928 {
        "targetDescriptions"
    } else if i == 929 {
        "directionDescriptions"
    } else if i == 930 {
        "overridesImplicitlyEnabledSubtype"
    } else if i == 931 {
        "listPreferredItemPaddingLeft"
    } else if i == 932 {
        "listPreferredItemPaddingRight"
    } else if i == 933 {
        "requiresFadingEdge"
    } else if i == 934 {
        "publicKey"
    } else if i == 935 {
        "parentActivityName"
    } else if i == 936 {
        "UNKNOWN"
    } else if i == 937 {
        "isolatedProcess"
    } else if i == 938 {
        "importantForAccessibility"
    } else if i == 939 {
        "keyboardLayout"
    } else if i == 940 {
        "fontFamily"
    } else if i == 941 {
        "mediaRouteButtonStyle"
    } else if i == 942 {
        "mediaRouteTypes"
    } else if i == 943 {
        "supportsRtl"
    } else if i == 944 {
        "textDirection"
    } else if i == 945 {
        "textAlignment"
    } else if i == 946 {
        "layoutDirection"
    } else if i == 947 {
        "paddingStart"
    } else if i == 948 {
        "paddingEnd"
    } else if i == 949 {
        "layout_marginStart"
    } else if i == 950 {
        "layout_marginEnd"
    } else if i == 951 {
        "layout_toStartOf"
    } else if i == 952 {
        "layout_toEndOf"
    } else if i == 953 {
        "layout_alignStart"
    } else if i == 954 {
        "layout_alignEnd"
    } else if i == 955 {
        "layout_alignParentStart"
    } else if i == 956 {
        "layout_alignParentEnd"
    } else if i == 957 {
        "listPreferredItemPaddingStart"
    } else if i == 958 {
        "listPreferredItemPaddingEnd"
    } else if i == 959 {
        "singleUser"
    } else if i == 960 {
        "presentationTheme"
    } else if i == 961 {
        "subtypeId"
    } else if i == 962 {
        "initialKeyguardLayout"
    } else if i == 963 {
        "UNKNOWN"
    } else if i == 964 {
        "widgetCategory"
    } else if i == 965 {
        "permissionGroupFlags"
    } else if i == 966 {
        "labelFor"
    } else if i == 967 {
        "permissionFlags"
    } else if i == 968 {
        "checkedTextViewStyle"
    } else if i == 969 {
        "showOnLockScreen"
    } else if i == 970 {
        "format12Hour"
    } else if i == 971 {
        "format24Hour"
    } else if i == 972 {
        "timeZone"
    } else if i == 973 {
        "mipMap"
    } else if i == 974 {
        "mirrorForRtl"
    } else if i == 975 {
        "windowOverscan"
    } else if i == 976 {
        "requiredForAllUsers"
    } else if i == 977 {
        "indicatorStart"
    } else if i == 978 {
        "indicatorEnd"
    } else if i == 979 {
        "childIndicatorStart"
    } else if i == 980 {
        "childIndicatorEnd"
    } else if i == 981 {
        "restrictedAccountType"
    } else if i == 982 {
        "requiredAccountType"
    } else if i == 983 {
        "canRequestTouchExplorationMode"
    } else if i == 984 {
        "canRequestEnhancedWebAccessibility"
    } else if i == 985 {
        "canRequestFilterKeyEvents"
    } else if i == 986 {
        "layoutMode"
    } else if i == 987 {
        "keySet"
    } else if i == 988 {
        "targetId"
    } else if i == 989 {
        "fromScene"
    } else if i == 990 {
        "toScene"
    } else if i == 991 {
        "transition"
    } else if i == 992 {
        "transitionOrdering"
    } else if i == 993 {
        "fadingMode"
    } else if i == 994 {
        "startDelay"
    } else if i == 995 {
        "ssp"
    } else if i == 996 {
        "sspPrefix"
    } else if i == 997 {
        "sspPattern"
    } else if i == 998 {
        "addPrintersActivity"
    } else if i == 999 {
        "vendor"
    } else {
        ""
    }
}

/// Entries 1000 to 1099 of the attribute-name table.
fn resource_name_10(i: usize) -> (r: &'static str)
    requires
        1000 <= i < 1100,
    ensures
        r@ == spec_resource_name_10(i as int),
{
    if i == 1000 {
        "category"
    } else if i == 1001 {
        "isAsciiCapable"
    } else if i == 1002 {
        "autoMirrored"
    } else if i == 1003 {
        "supportsSwitchingToNextInputMethod"
    } else if i == 1004 {
        "requireDeviceUnlock"
    } else if i == 1005 {
        "apduServiceBanner"
    } else if i == 1006 {
        "accessibilityLiveRegion"
    } else if i == 1007 {
        "windowTranslucentStatus"
    } else if i == 1008 {
        "windowTranslucentNavigation"
    } else if i == 1009 {
        "advancedPrintOptionsActivity"
    } else if i == 1010 {
        "banner"
    } else if i == 1011 {
        "windowSwipeToDismiss"
    } else if i == 1012 {
        "isGame"
    } else if i == 1013 {
        "allowEmbedded"
    } else if i == 1014 {
        "setupActivity"
    } else if i == 1015 {
        "fastScrollStyle"
    } else if i == 1016 {
        "windowContentTransitions"
    } else if i == 1017 {
        "windowContentTransitionManager"
    } else if i == 1018 {
        "translationZ"
    } else if i == 1019 {
        "tintMode"
    } else if i == 1020 {
        "controlX1"
    } else if i == 1021 {
        "controlY1"
    } else if i == 1022 {
        "controlX2"
    } else if i == 1023 {
        "controlY2"
    } else if i == 1024 {
        "transitionName"
    } else if i == 1025 {
        "transitionGroup"
    } else if i == 1026 {
        "viewportWidth"
    } else if i == 1027 {
        "viewportHeight"
    } else if i == 1028 {
        "fillColor"
    } else if i == 1029 {
        "pathData"
    } else if i == 1030 {
        "strokeColor"
    } else if i == 1031 {
        "strokeWidth"
    } else if i == 1032 {
        "trimPathStart"
    } else if i == 1033 {
        "trimPathEnd"
    } else if i == 1034 {
        "trimPathOffset"
    } else if i == 1035 {
        "strokeLineCap"
    } else if i == 1036 {
        "strokeLineJoin"
    } else if i == 1037 {
        "strokeMiterLimit"
    } else if i == 1038 {
        "UNKNOWN"
    } else if i == 1039 {
        "UNKNOWN"
    } else if i == 1040 {
        "UNKNOWN"
    } else if i == 1041 {
        "UNKNOWN"
    } else if i == 1042 {
        "UNKNOWN"
    } else if i == 1043 {
        "UNKNOWN"
    } else if i == 1044 {
        "UNKNOWN"
    } else if i == 1045 {
        "UNKNOWN"
    } else if i == 1046 {
        "UNKNOWN"
    } else if i == 1047 {
        "UNKNOWN"
    } else if i == 1048 {
        "UNKNOWN"
    } else if i == 1049 {
        "UNKNOWN"
    } else if i == 1050 {
        "UNKNOWN"
    } else if i == 1051 {
        "UNKNOWN"
    } else if i == 1052 {
        "UNKNOWN"
    } else if i == 1053 {
        "UNKNOWN"
    } else if i == 1054 {
        "UNKNOWN"
    } else if i == 1055 {
        "UNKNOWN"
    } else if i == 1056 {
        "UNKNOWN"
    } else if i == 1057 {
        "UNKNOWN"
    } else if i == 1058 {
        "UNKNOWN"
    } else if i == 1059 {
        "UNKNOWN"
    } else if i == 1060 {
        "UNKNOWN"
    } else if i == 1061 {
        "UNKNOWN"
    } else if i == 1062 {
        "UNKNOWN"
    } else if i == 1063 {
        "UNKNOWN"
    } else if i == 1064 {
        "UNKNOWN"
    } else if i == 1065 {
        "colorControlNormal"
    } else if i == 1066 {
        "colorControlActivated"
    } else if i == 1067 {
        "colorButtonNormal"
    } else if i == 1068 {
        "colorControlHighlight"
    } else if i == 1069 {
        "persistableMode"
    } else if i == 1070 {
        "titleTextAppearance"
    } else if i == 1071 {
        "subtitleTextAppearance"
    } else if i == 1072 {
        "slideEdge"
    } else if i == 1073 {
        "actionBarTheme"
    } else if i == 1074 {
        "textAppearanceListItemSecondary"
    } else if i == 1075 {
        "colorPrimary"
    } else if i == 1076 {
        "colorPrimaryDark"
    } else if i == 1077 {
        "colorAccent"
    } else if i == 1078 {
        "nestedScrollingEnabled"
    } else if i == 1079 {
        "windowEnterTransition"
    } else if i == 1080 {
        "windowExitTransition"
    } else if i == 1081 {
        "windowSharedElementEnterTransition"
    } else if i == 1082 {
        "windowSharedElementExitTransition"
    } else if i == 1083 {
        "windowAllowReturnTransitionOverlap"
    } else if i == 1084 {
        "windowAllowEnterTransitionOverlap"
    } else if i == 1085 {
        "sessionService"
    } else if i == 1086 {
        "stackViewStyle"
    } else if i == 1087 {
        "switchStyle"
    } else if i == 1088 {
        "elevation"
    } else if i == 1089 {
        "excludeId"
    } else if i == 1090 {
        "excludeClass"
    } else if i == 1091 {
        "hideOnContentScroll"
    } else if i == 1092 {
        "actionOverflowMenuStyle"
    } else if i == 1093 {
        "documentLaunchMode"
    } else if i == 1094 {
        "maxRecents"
    } else if i == 1095 {
        "autoRemoveFromRecents"
    } else if i == 1096 {
        "stateListAnimator"
    } else if i == 1097 {
        "toId"
    } else if i == 1098 {
        "fromId"
    } else if i == 1099 {
        "reversible"
    } else {
        ""
    }
}

/// Entries 1100 to 1199 of the attribute-name table.
fn resource_name_11(i: usize) -> (r: &'static str)
    requires
        1100 <= i < 1200,
    ensures
        r@ == spec_resource_name_11(i as int),
{
    if i == 1100 {
        "splitTrack"
    } else if i == 1101 {
        "targetName"
    } else if i == 1102 {
        "excludeName"
    } else if i == 1103 {
        "matchOrder"
    } else if i == 1104 {
        "windowDrawsSystemBarBackgrounds"
    } else if i == 1105 {
        "statusBarColor"
    } else if i == 1106 {
        "navigationBarColor"
    } else if i == 1107 {
        "contentInsetStart"
    } else if i == 1108 {
        "contentInsetEnd"
    } else if i == 1109 {
        "contentInsetLeft"
    } else if i == 1110 {
        "contentInsetRight"
    } else if i == 1111 {
        "paddingMode"
    } else if i == 1112 {
        "layout_rowWeight"
    } else if i == 1113 {
        "layout_columnWeight"
    } else if i == 1114 {
        "translateX"
    } else if i == 1115 {
        "translateY"
    } else if i == 1116 {
        "selectableItemBackgroundBorderless"
    } else if i == 1117 {
        "elegantTextHeight"
    } else if i == 1118 {
        "UNKNOWN"
    } else if i == 1119 {
        "UNKNOWN"
    } else if i == 1120 {
        "UNKNOWN"
    } else if i == 1121 {
        "windowTransitionBackgroundFadeDuration"
    } else if i == 1122 {
        "overlapAnchor"
    } else if i == 1123 {
        "progressTint"
    } else if i == 1124 {
        "progressTintMode"
    } else if i == 1125 {
        "progressBackgroundTint"
    } else if i == 1126 {
        "progressBackgroundTintMode"
    } else if i == 1127 {
        "secondaryProgressTint"
    } else if i == 1128 {
        "secondaryProgressTintMode"
    } else if i == 1129 {
        "indeterminateTint"
    } else if i == 1130 {
        "indeterminateTintMode"
    } else if i == 1131 {
        "backgroundTint"
    } else if i == 1132 {
        "backgroundTintMode"
    } else if i == 1133 {
        "foregroundTint"
    } else if i == 1134 {
        "foregroundTintMode"
    } else if i == 1135 {
        "buttonTint"
    } else if i == 1136 {
        "buttonTintMode"
    } else if i == 1137 {
        "thumbTint"
    } else if i == 1138 {
        "thumbTintMode"
    } else if i == 1139 {
        "fullBackupOnly"
    } else if i == 1140 {
        "propertyXName"
    } else if i == 1141 {
        "propertyYName"
    } else if i == 1142 {
        "relinquishTaskIdentity"
    } else if i == 1143 {
        "tileModeX"
    } else if i == 1144 {
        "tileModeY"
    } else if i == 1145 {
        "actionModeShareDrawable"
    } else if i == 1146 {
        "actionModeFindDrawable"
    } else if i == 1147 {
        "actionModeWebSearchDrawable"
    } else if i == 1148 {
        "transitionVisibilityMode"
    } else if i == 1149 {
        "minimumHorizontalAngle"
    } else if i == 1150 {
        "minimumVerticalAngle"
    } else if i == 1151 {
        "maximumAngle"
    } else if i == 1152 {
        "searchViewStyle"
    } else if i == 1153 {
        "closeIcon"
    } else if i == 1154 {
        "goIcon"
    } else if i == 1155 {
        "searchIcon"
    } else if i == 1156 {
        "voiceIcon"
    } else if i == 1157 {
        "commitIcon"
    } else if i == 1158 {
        "suggestionRowLayout"
    } else if i == 1159 {
        "queryBackground"
    } else if i == 1160 {
        "submitBackground"
    } else if i == 1161 {
        "buttonBarPositiveButtonStyle"
    } else if i == 1162 {
        "buttonBarNeutralButtonStyle"
    } else if i == 1163 {
        "buttonBarNegativeButtonStyle"
    } else if i == 1164 {
        "popupElevation"
    } else if i == 1165 {
        "actionBarPopupTheme"
    } else if i == 1166 {
        "multiArch"
    } else if i == 1167 {
        "touchscreenBlocksFocus"
    } else if i == 1168 {
        "windowElevation"
    } else if i == 1169 {
        "launchTaskBehindTargetAnimation"
    } else if i == 1170 {
        "launchTaskBehindSourceAnimation"
    } else if i == 1171 {
        "restrictionType"
    } else if i == 1172 {
        "dayOfWeekBackground"
    } else if i == 1173 {
        "dayOfWeekTextAppearance"
    } else if i == 1174 {
        "headerMonthTextAppearance"
    } else if i == 1175 {
        "headerDayOfMonthTextAppearance"
    } else if i == 1176 {
        "headerYearTextAppearance"
    } else if i == 1177 {
        "yearListItemTextAppearance"
    } else if i == 1178 {
        "yearListSelectorColor"
    } else if i == 1179 {
        "calendarTextColor"
    } else if i == 1180 {
        "recognitionService"
    } else if i == 1181 {
        "timePickerStyle"
    } else if i == 1182 {
        "timePickerDialogTheme"
    } else if i == 1183 {
        "headerTimeTextAppearance"
    } else if i == 1184 {
        "headerAmPmTextAppearance"
    } else if i == 1185 {
        "numbersTextColor"
    } else if i == 1186 {
        "numbersBackgroundColor"
    } else if i == 1187 {
        "numbersSelectorColor"
    } else if i == 1188 {
        "amPmTextColor"
    } else if i == 1189 {
        "amPmBackgroundColor"
    } else if i == 1190 {
        "UNKNOWN"
    } else if i == 1191 {
        "checkMarkTint"
    } else if i == 1192 {
        "checkMarkTintMode"
    } else if i == 1193 {
        "popupTheme"
    } else if i == 1194 {
        "toolbarStyle"
    } else if i == 1195 {
        "windowClipToOutline"
    } else if i == 1196 {
        "datePickerDialogTheme"
    } else if i == 1197 {
        "showText"
    } else if i == 1198 {
        "windowReturnTransition"
    } else if i == 1199 {
        "windowReenterTransition"
    } else {
        ""
    }
}

/// Entries 1200 to 1299 of the attribute-name table.
fn resource_name_12(i: usize) -> (r: &'static str)
    requires
        1200 <= i < 1300,
    ensures
        r@ == spec_resource_name_12(i as int),
{
    if i == 1200 {
        "windowSharedElementReturnTransition"
    } else if i == 1201 {
        "windowSharedElementReenterTransition"
    } else if i == 1202 {
        "resumeWhilePausing"
    } else if i == 1203 {
        "datePickerMode"
    } else if i == 1204 {
        "timePickerMode"
    } else if i == 1205 {
        "inset"
    } else if i == 1206 {
        "letterSpacing"
    } else if i == 1207 {
        "fontFeatureSettings"
    } else if i == 1208 {
        "outlineProvider"
    } else if i == 1209 {
        "contentAgeHint"
    } else if i == 1210 {
        "country"
    } else if i == 1211 {
        "windowSharedElementsUseOverlay"
    } else if i == 1212 {
        "reparent"
    } else if i == 1213 {
        "reparentWithOverlay"
    } else if i == 1214 {
        "ambientShadowAlpha"
    } else if i == 1215 {
        "spotShadowAlpha"
    } else if i == 1216 {
        "navigationIcon"
    } else if i == 1217 {
        "navigationContentDescription"
    } else if i == 1218 {
        "fragmentExitTransition"
    } else if i == 1219 {
        "fragmentEnterTransition"
    } else if i == 1220 {
        "fragmentSharedElementEnterTransition"
    } else if i == 1221 {
        "fragmentReturnTransition"
    } else if i == 1222 {
        "fragmentSharedElementReturnTransition"
    } else if i == 1223 {
        "fragmentReenterTransition"
    } else if i == 1224 {
        "fragmentAllowEnterTransitionOverlap"
    } else if i == 1225 {
        "fragmentAllowReturnTransitionOverlap"
    } else if i == 1226 {
        "patternPathData"
    } else if i == 1227 {
        "strokeAlpha"
    } else if i == 1228 {
        "fillAlpha"
    } else if i == 1229 {
        "windowActivityTransitions"
    } else if i == 1230 {
        "colorEdgeEffect"
    } else if i == 1231 {
        "resizeClip"
    } else if i == 1232 {
        "collapseContentDescription"
    } else if i == 1233 {
        "accessibilityTraversalBefore"
    } else if i == 1234 {
        "accessibilityTraversalAfter"
    } else if i == 1235 {
        "dialogPreferredPadding"
    } else if i == 1236 {
        "searchHintIcon"
    } else if i == 1237 {
        "revisionCode"
    } else if i == 1238 {
        "drawableTint"
    } else if i == 1239 {
        "drawableTintMode"
    } else if i == 1240 {
        "fraction"
    } else if i == 1241 {
        "trackTint"
    } else if i == 1242 {
        "trackTintMode"
    } else if i == 1243 {
        "start"
    } else if i == 1244 {
        "end"
    } else if i == 1245 {
        "breakStrategy"
    } else if i == 1246 {
        "hyphenationFrequency"
    } else if i == 1247 {
        "allowUndo"
    } else if i == 1248 {
        "windowLightStatusBar"
    } else if i == 1249 {
        "numbersInnerTextColor"
    } else if i == 1250 {
        "colorBackgroundFloating"
    } else if i == 1251 {
        "titleTextColor"
    } else if i == 1252 {
        "subtitleTextColor"
    } else if i == 1253 {
        "thumbPosition"
    } else if i == 1254 {
        "scrollIndicators"
    } else if i == 1255 {
        "contextClickable"
    } else if i == 1256 {
        "fingerprintAuthDrawable"
    } else if i == 1257 {
        "logoDescription"
    } else if i == 1258 {
        "extractNativeLibs"
    } else if i == 1259 {
        "fullBackupContent"
    } else if i == 1260 {
        "usesCleartextTraffic"
    } else if i == 1261 {
        "lockTaskMode"
    } else if i == 1262 {
        "autoVerify"
    } else if i == 1263 {
        "showForAllUsers"
    } else if i == 1264 {
        "supportsAssist"
    } else if i == 1265 {
        "supportsLaunchVoiceAssistFromKeyguard"
    } else if i == 1266 {
        "listMenuViewStyle"
    } else if i == 1267 {
        "subMenuArrow"
    } else if i == 1268 {
        "defaultWidth"
    } else if i == 1269 {
        "defaultHeight"
    } else if i == 1270 {
        "resizeableActivity"
    } else if i == 1271 {
        "supportsPictureInPicture"
    } else if i == 1272 {
        "titleMargin"
    } else if i == 1273 {
        "titleMarginStart"
    } else if i == 1274 {
        "titleMarginEnd"
    } else if i == 1275 {
        "titleMarginTop"
    } else if i == 1276 {
        "titleMarginBottom"
    } else if i == 1277 {
        "maxButtonHeight"
    } else if i == 1278 {
        "buttonGravity"
    } else if i == 1279 {
        "collapseIcon"
    } else if i == 1280 {
        "level"
    } else if i == 1281 {
        "contextPopupMenuStyle"
    } else if i == 1282 {
        "textAppearancePopupMenuHeader"
    } else if i == 1283 {
        "windowBackgroundFallback"
    } else if i == 1284 {
        "defaultToDeviceProtectedStorage"
    } else if i == 1285 {
        "directBootAware"
    } else if i == 1286 {
        "preferenceFragmentStyle"
    } else if i == 1287 {
        "canControlMagnification"
    } else if i == 1288 {
        "languageTag"
    } else if i == 1289 {
        "pointerIcon"
    } else if i == 1290 {
        "tickMark"
    } else if i == 1291 {
        "tickMarkTint"
    } else if i == 1292 {
        "tickMarkTintMode"
    } else if i == 1293 {
        "canPerformGestures"
    } else if i == 1294 {
        "externalService"
    } else if i == 1295 {
        "supportsLocalInteraction"
    } else if i == 1296 {
        "startX"
    } else if i == 1297 {
        "startY"
    } else if i == 1298 {
        "endX"
    } else if i == 1299 {
        "endY"
    } else {
        ""
    }
}

/// Entries 1300 to 1328 of the attribute-name table.
fn resource_name_13(i: usize) -> (r: &'static str)
    requires
        1300 <= i < 1329,
    ensures
        r@ == spec_resource_name_13(i as int),
{
    if i == 1300 {
        "offset"
    } else if i == 1301 {
        "use32bitAbi"
    } else if i == 1302 {
        "bitmap"
    } else if i == 1303 {
        "hotSpotX"
    } else if i == 1304 {
        "hotSpotY"
    } else if i == 1305 {
        "version"
    } else if i == 1306 {
        "backupInForeground"
    } else if i == 1307 {
        "countDown"
    } else if i == 1308 {
        "canRecord"
    } else if i == 1309 {
        "tunerCount"
    } else if i == 1310 {
        "fillType"
    } else if i == 1311 {
        "popupEnterTransition"
    } else if i == 1312 {
        "popupExitTransition"
    } else if i == 1313 {
        "forceHasOverlappingRendering"
    } else if i == 1314 {
        "contentInsetStartWithNavigation"
    } else if i == 1315 {
        "contentInsetEndWithActions"
    } else if i == 1316 {
        "numberPickerStyle"
    } else if i == 1317 {
        "enableVrMode"
    } else if i == 1318 {
        "UNKNOWN"
    } else if i == 1319 {
        "networkSecurityConfig"
    } else if i == 1320 {
        "shortcutId"
    } else if i == 1321 {
        "shortcutShortLabel"
    } else if i == 1322 {
        "shortcutLongLabel"
    } else if i == 1323 {
        "shortcutDisabledMessage"
    } else if i == 1324 {
        "roundIcon"
    } else if i == 1325 {
        "contextUri"
    } else if i == 1326 {
        "contextDescription"
    } else if i == 1327 {
        "showMetadataInPreview"
    } else if i == 1328 {
        "colorSecondary"
    } else {
        ""
    }
}

/// The attribute name at index `i`, or `None` past the end of the table.
pub fn resource_name_at(i: usize) -> (r: Option<&'static str>)
    ensures
        i < RESOURCE_NAME_COUNT ==> (r matches Some(s) && s@ == spec_resource_name(i as int)),
        i >= RESOURCE_NAME_COUNT ==> r is None,
{
    if i < 100 {
        Some(resource_name_0(i))
    } else if i < 200 {
        Some(resource_name_1(i))
    } else if i < 300 {
        Some(resource_name_2(i))
    } else if i < 400 {
        Some(resource_name_3(i))
    } else if i < 500 {
        Some(resource_name_4(i))
    } else if i < 600 {
        Some(resource_name_5(i))
    } else if i < 700 {
        Some(resource_name_6(i))
    } else if i < 800 {
        Some(resource_name_7(i))
    } else if i < 900 {
        Some(resource_name_8(i))
    } else if i < 1000 {
        Some(resource_name_9(i))
    } else if i < 1100 {
        Some(resource_name_10(i))
    } else if i < 1200 {
        Some(resource_name_11(i))
    } else if i < 1300 {
        Some(resource_name_12(i))
    } else if i < 1329 {
        Some(resource_name_13(i))
    } else {
        None
    }
}

} // verus!
